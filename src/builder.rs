use vstd::prelude::*;
use crate::consts::{
    cs_arch, cs_err, cs_mode, cs_opt_type, cs_opt_value, csh, CsResult, CS_ERR_OK, CS_OPT_DETAIL,
    CS_OPT_MODE, CS_OPT_OFF, CS_OPT_ON, CS_OPT_SKIPDATA, CS_OPT_SKIPDATA_SETUP, CS_OPT_SYNTAX,
};
use crate::engine::Capstone;

verus! {

/// The mnemonic given to skipped data when none is configured.
pub const DEFAULT_SKIPDATA_MNEMONIC: &'static str = ".byte";

/// How skipped data is reported: the mnemonic it is given and the callback
/// that decides how many bytes to skip. The user data handed to the
/// callback is always null.
pub struct SkipdataConfig<Cb> {
    pub mnemonic: &'static str,
    pub callback: Cb,
}

/// One option to apply to an open engine.
pub enum EngineOption<Cb> {
    /// An option whose value is a plain number.
    Value { kind: cs_opt_type, value: usize },
    /// The skip-data setup, whose value is a configuration record.
    SkipdataSetup(SkipdataConfig<Cb>),
}

impl<Cb> EngineOption<Cb> {
    pub open spec fn kind_spec(self) -> cs_opt_type {
        match self {
            EngineOption::Value { kind, .. } => kind,
            EngineOption::SkipdataSetup(_) => CS_OPT_SKIPDATA_SETUP,
        }
    }

    /// The value recorded for the option: the number, or zero for the
    /// skip-data setup, whose record bookkeeping does not need.
    pub open spec fn value_spec(self) -> usize {
        match self {
            EngineOption::Value { value, .. } => value,
            EngineOption::SkipdataSetup(_) => 0,
        }
    }

    /// The option's kind.
    pub fn kind(&self) -> (r: cs_opt_type)
        ensures
            r == self.kind_spec(),
    {
        match self {
            EngineOption::Value { kind, .. } => *kind,
            EngineOption::SkipdataSetup(_) => CS_OPT_SKIPDATA_SETUP,
        }
    }

    /// The option's numeric value.
    pub fn value(&self) -> (r: usize)
        ensures
            r == self.value_spec(),
    {
        match self {
            EngineOption::Value { value, .. } => *value,
            EngineOption::SkipdataSetup(_) => 0,
        }
    }
}

/// The option of kind `kind` with value `v`, if one was chosen.
pub open spec fn option_step<Cb>(kind: cs_opt_type, v: Option<usize>) -> Seq<EngineOption<Cb>> {
    match v {
        Some(value) => seq![EngineOption::Value { kind, value }],
        None => seq![],
    }
}

/// Whether detail mode is on after applying `opts`, in order, to an engine
/// opened with detail mode off.
pub open spec fn detail_after<Cb>(opts: Seq<EngineOption<Cb>>) -> bool
    decreases opts.len(),
{
    if opts.len() == 0 {
        false
    } else if opts.last().kind_spec() == CS_OPT_DETAIL {
        opts.last().value_spec() != CS_OPT_OFF as usize
    } else {
        detail_after(opts.drop_last())
    }
}

/// Accumulates the options of an engine before it is opened.
pub struct Builder<Cb> {
    arch: cs_arch,
    mode: cs_mode,
    syntax: Option<usize>,
    detail: Option<usize>,
    skipdata: Option<usize>,
    skipdata_config: Option<SkipdataConfig<Cb>>,
}

impl<Cb> Builder<Cb> {
    pub closed spec fn arch_spec(self) -> cs_arch {
        self.arch
    }

    pub closed spec fn mode_spec(self) -> cs_mode {
        self.mode
    }

    pub closed spec fn syntax_spec(self) -> Option<usize> {
        self.syntax
    }

    pub closed spec fn detail_spec(self) -> Option<usize> {
        self.detail
    }

    pub closed spec fn skipdata_spec(self) -> Option<usize> {
        self.skipdata
    }

    pub closed spec fn skipdata_config_spec(self) -> Option<SkipdataConfig<Cb>> {
        self.skipdata_config
    }

    /// The options that building applies after opening, in order: syntax,
    /// detail, skip-data, then the skip-data setup, which is preceded by
    /// turning skip-data on unless it was already asked for on.
    pub open spec fn plan_spec(self) -> Seq<EngineOption<Cb>> {
        option_step(CS_OPT_SYNTAX, self.syntax_spec()) + option_step(
            CS_OPT_DETAIL,
            self.detail_spec(),
        ) + option_step(CS_OPT_SKIPDATA, self.skipdata_spec()) + match self.skipdata_config_spec() {
            Some(c) => if self.skipdata_spec() == Some(CS_OPT_ON as usize) {
                seq![EngineOption::SkipdataSetup(c)]
            } else {
                seq![
                    EngineOption::Value { kind: CS_OPT_SKIPDATA, value: CS_OPT_ON as usize },
                    EngineOption::SkipdataSetup(c),
                ]
            },
            None => seq![],
        }
    }

    /// A builder for `arch` and `mode` with no option chosen.
    pub fn new(arch: cs_arch, mode: cs_mode) -> (r: Builder<Cb>)
        ensures
            r.arch_spec() == arch,
            r.mode_spec() == mode,
            r.syntax_spec() is None,
            r.detail_spec() is None,
            r.skipdata_spec() is None,
            r.skipdata_config_spec() is None,
    {
        Builder {
            arch,
            mode,
            syntax: None,
            detail: None,
            skipdata: None,
            skipdata_config: None,
        }
    }

    /// The architecture to open.
    pub fn arch(&self) -> (r: cs_arch)
        ensures
            r == self.arch_spec(),
    {
        self.arch
    }

    /// The mode to open.
    pub fn mode(&self) -> (r: cs_mode)
        ensures
            r == self.mode_spec(),
    {
        self.mode
    }

    /// Chooses the syntax.
    pub fn syntax(self, syntax: cs_opt_value) -> (r: Builder<Cb>)
        ensures
            r.arch_spec() == self.arch_spec(),
            r.mode_spec() == self.mode_spec(),
            r.syntax_spec() == Some(syntax as usize),
            r.detail_spec() == self.detail_spec(),
            r.skipdata_spec() == self.skipdata_spec(),
            r.skipdata_config_spec() == self.skipdata_config_spec(),
    {
        Builder { syntax: Some(syntax as usize), ..self }
    }

    /// Chooses whether detail mode is on.
    pub fn detail(self, detail: cs_opt_value) -> (r: Builder<Cb>)
        ensures
            r.arch_spec() == self.arch_spec(),
            r.mode_spec() == self.mode_spec(),
            r.syntax_spec() == self.syntax_spec(),
            r.detail_spec() == Some(detail as usize),
            r.skipdata_spec() == self.skipdata_spec(),
            r.skipdata_config_spec() == self.skipdata_config_spec(),
    {
        Builder { detail: Some(detail as usize), ..self }
    }

    /// Chooses whether data met in code is skipped.
    pub fn skipdata(self, doit: cs_opt_value) -> (r: Builder<Cb>)
        ensures
            r.arch_spec() == self.arch_spec(),
            r.mode_spec() == self.mode_spec(),
            r.syntax_spec() == self.syntax_spec(),
            r.detail_spec() == self.detail_spec(),
            r.skipdata_spec() == Some(doit as usize),
            r.skipdata_config_spec() == self.skipdata_config_spec(),
    {
        Builder { skipdata: Some(doit as usize), ..self }
    }

    /// Chooses how skipped data is reported: its mnemonic, by default
    /// `DEFAULT_SKIPDATA_MNEMONIC`, and the callback.
    pub fn skipdata_config(self, mnemonic: Option<&'static str>, callback: Cb) -> (r: Builder<Cb>)
        ensures
            r.arch_spec() == self.arch_spec(),
            r.mode_spec() == self.mode_spec(),
            r.syntax_spec() == self.syntax_spec(),
            r.detail_spec() == self.detail_spec(),
            r.skipdata_spec() == self.skipdata_spec(),
            r.skipdata_config_spec() == Some(
                SkipdataConfig {
                    mnemonic: match mnemonic {
                        Some(m) => m,
                        None => DEFAULT_SKIPDATA_MNEMONIC,
                    },
                    callback,
                },
            ),
    {
        let mnemonic: &'static str = match mnemonic {
            Some(m) => m,
            None => DEFAULT_SKIPDATA_MNEMONIC,
        };
        Builder { skipdata_config: Some(SkipdataConfig { mnemonic, callback }), ..self }
    }

    /// Commits the builder, given the outcome of opening a native context
    /// for its architecture and mode: the error code `err` and, on success,
    /// the context's token `handle`. A failed open is returned as it is;
    /// otherwise the session applies `plan_spec()` from its first option.
    pub fn build(self, err: cs_err, handle: csh) -> (r: CsResult<BuildSession<Cb>>)
        ensures
            r is Ok <==> err == CS_ERR_OK,
            r matches Err(e) ==> e == err,
            r matches Ok(s) ==> {
                &&& s.plan_view() == self.plan_spec()
                &&& s.applied_count() == 0
                &&& s.engine_spec().handle_spec() == handle
                &&& s.engine_spec().arch_spec() == self.arch_spec()
                &&& s.engine_spec().mode_spec() == self.mode_spec()
            },
    {
        let engine = match Capstone::new(self.arch, self.mode, err, handle) {
            Ok(engine) => engine,
            Err(e) => {
                return Err(e);
            },
        };
        let mut plan: Vec<EngineOption<Cb>> = Vec::new();
        if let Some(v) = self.syntax {
            plan.push(EngineOption::Value { kind: CS_OPT_SYNTAX, value: v });
        }
        if let Some(v) = self.detail {
            plan.push(EngineOption::Value { kind: CS_OPT_DETAIL, value: v });
        }
        if let Some(v) = self.skipdata {
            plan.push(EngineOption::Value { kind: CS_OPT_SKIPDATA, value: v });
        }
        if let Some(c) = self.skipdata_config {
            let already_on = match self.skipdata {
                Some(v) => v == CS_OPT_ON as usize,
                None => false,
            };
            if !already_on {
                plan.push(EngineOption::Value { kind: CS_OPT_SKIPDATA, value: CS_OPT_ON as usize });
            }
            plan.push(EngineOption::SkipdataSetup(c));
        }
        assert(plan@ =~= self.plan_spec());
        proof {
            lemma_plan_sets_no_mode(self);
        }
        Ok(BuildSession { engine, plan, applied: 0 })
    }
}

proof fn lemma_plan_sets_no_mode<Cb>(b: Builder<Cb>)
    ensures
        forall|i: int| 0 <= i < b.plan_spec().len() ==> #[trigger] b.plan_spec()[i].kind_spec() != CS_OPT_MODE,
{
    let p = b.plan_spec();
    assert forall|i: int| 0 <= i < p.len() implies #[trigger] p[i].kind_spec() != CS_OPT_MODE by {
        let k = p[i].kind_spec();
        assert(k == CS_OPT_SYNTAX || k == CS_OPT_DETAIL || k == CS_OPT_SKIPDATA || k
            == CS_OPT_SKIPDATA_SETUP);
    }
}

proof fn lemma_detail_after_append<Cb>(a: Seq<EngineOption<Cb>>, b: Seq<EngineOption<Cb>>)
    requires
        forall|i: int| 0 <= i < b.len() ==> #[trigger] b[i].kind_spec() != CS_OPT_DETAIL,
    ensures
        detail_after(a + b) == detail_after(a),
    decreases b.len(),
{
    if b.len() > 0 {
        assert((a + b).drop_last() =~= a + b.drop_last());
        assert((a + b).last() == b[b.len() - 1]);
        lemma_detail_after_append(a, b.drop_last());
    } else {
        assert(a + b =~= a);
    }
}

/// Building turns detail mode on exactly when the builder chose a detail
/// value other than off: the options after the detail option never touch it.
pub proof fn lemma_build_detail<Cb>(b: Builder<Cb>)
    ensures
        detail_after(b.plan_spec()) == (b.detail_spec() matches Some(v) && v != CS_OPT_OFF as usize),
{
    let syn = option_step::<Cb>(CS_OPT_SYNTAX, b.syntax_spec());
    let det = option_step::<Cb>(CS_OPT_DETAIL, b.detail_spec());
    let skip = option_step::<Cb>(CS_OPT_SKIPDATA, b.skipdata_spec());
    let setup: Seq<EngineOption<Cb>> = b.plan_spec().subrange(
        (syn.len() + det.len() + skip.len()) as int,
        b.plan_spec().len() as int,
    );
    assert(b.plan_spec() =~= (syn + det) + (skip + setup));
    assert forall|i: int| 0 <= i < (skip + setup).len() implies #[trigger] (skip
        + setup)[i].kind_spec() != CS_OPT_DETAIL by {
        let k = (skip + setup)[i].kind_spec();
        assert(k == CS_OPT_SKIPDATA || k == CS_OPT_SKIPDATA_SETUP);
    }
    lemma_detail_after_append(syn + det, skip + setup);
    if b.detail_spec() is None {
        assert(syn + det =~= syn);
        assert forall|i: int| 0 <= i < syn.len() implies #[trigger] syn[i].kind_spec()
            != CS_OPT_DETAIL by {}
        lemma_detail_after_append(Seq::<EngineOption<Cb>>::empty(), syn);
        assert(Seq::<EngineOption<Cb>>::empty() + syn =~= syn);
    } else {
        assert((syn + det).last() == det[0]);
    }
}

/// The commit of a builder in progress: an open engine and the options
/// still to apply to it. It ends either with every option applied, or at
/// the first option the engine refuses, giving up the engine for release.
pub struct BuildSession<Cb> {
    engine: Capstone,
    plan: Vec<EngineOption<Cb>>,
    applied: usize,
}

/// What recording the engine's answer to one option leads to.
pub enum BuildStep<Cb> {
    /// The option was applied; the session goes on.
    Continue(BuildSession<Cb>),
    /// The engine refused the option with the given code. What is left is
    /// the token the native context must be released with, and the code to
    /// report: no partly configured handle remains.
    Failed(csh, cs_err),
}

impl<Cb> BuildSession<Cb> {
    #[verifier::type_invariant]
    spec fn in_step(self) -> bool {
        &&& self.applied <= self.plan@.len()
        &&& self.engine.detail_on() == detail_after(self.plan@.subrange(0, self.applied as int))
        &&& forall|i: int| 0 <= i < self.plan@.len() ==> #[trigger] self.plan@[i].kind_spec() != CS_OPT_MODE
    }

    pub closed spec fn engine_spec(self) -> Capstone {
        self.engine
    }

    pub closed spec fn plan_view(self) -> Seq<EngineOption<Cb>> {
        self.plan@
    }

    pub closed spec fn applied_count(self) -> nat {
        self.applied as nat
    }

    /// The open engine, for applying the pending option to it.
    pub fn engine(&self) -> (r: &Capstone)
        ensures
            *r == self.engine_spec(),
    {
        &self.engine
    }

    /// The next option to apply, or `None` once all are applied.
    pub fn pending(&self) -> (r: Option<&EngineOption<Cb>>)
        ensures
            r == if self.applied_count() < self.plan_view().len() {
                Some(&self.plan_view()[self.applied_count() as int])
            } else {
                None
            },
    {
        proof {
            use_type_invariant(self);
        }
        if self.applied < self.plan.len() {
            Some(&self.plan[self.applied])
        } else {
            None
        }
    }

    /// Records the engine's answer `err` to the pending option.
    pub fn record(self, err: cs_err) -> (r: BuildStep<Cb>)
        requires
            self.applied_count() < self.plan_view().len(),
        ensures
            r is Continue <==> err == CS_ERR_OK,
            r matches BuildStep::Continue(s) ==> {
                &&& s.plan_view() == self.plan_view()
                &&& s.applied_count() == self.applied_count() + 1
                &&& s.engine_spec().handle_spec() == self.engine_spec().handle_spec()
                &&& s.engine_spec().arch_spec() == self.engine_spec().arch_spec()
                &&& s.engine_spec().mode_spec() == self.engine_spec().mode_spec()
            },
            r matches BuildStep::Failed(release, code) ==> code == err && release
                == self.engine_spec().handle_spec(),
    {
        proof {
            use_type_invariant(&self);
        }
        let applied = self.applied;
        let planned = self.plan.len();
        let kind = self.plan[applied].kind();
        let value = self.plan[applied].value();
        let mut engine = self.engine;
        let plan = self.plan;
        match engine.option(kind, value, err) {
            Ok(()) => {
                proof {
                    assert(applied < planned);
                    let done = plan@.subrange(0, applied + 1);
                    assert(done.drop_last() =~= plan@.subrange(0, applied as int));
                    assert(done.last() == plan@[applied as int]);
                }
                BuildStep::Continue(BuildSession { engine, plan, applied: applied + 1 })
            },
            Err(e) => BuildStep::Failed(engine.close(), e),
        }
    }

    /// The engine, once every option has been applied; its detail mode is
    /// what the options left it in.
    pub fn finish(self) -> (r: Capstone)
        requires
            self.applied_count() == self.plan_view().len(),
        ensures
            r == self.engine_spec(),
            r.detail_on() == detail_after(self.plan_view()),
    {
        proof {
            use_type_invariant(&self);
            assert(self.plan@.subrange(0, self.applied as int) =~= self.plan@);
        }
        self.engine
    }
}

} // verus!

