//! Bookkeeping of the SPICE toolkit context: which kernels are configured,
//! where they live, and whether they have been furnished.  The calls into the
//! CSPICE library itself are made by the application around this crate.
pub mod naif_ids;

use vstd::prelude::*;

verus! {

/// Failures of the SPICE layer.
#[derive(Clone, Debug, PartialEq)]
pub enum SpiceError {
    /// A kernel could not be found or furnished, or a body is unknown.
    KernelLoad(String),
    /// `spkezr_c` returned a non-zero status.
    SpkezrError(i32),
    /// `bodvcd_c` returned a non-zero status.
    BodvcdError(i32),
    /// A time conversion failed.
    TimeError(String),
    /// A query was made before the kernels were loaded.
    NotLoaded,
    /// A path or a returned string was not valid UTF-8.
    Utf8Error(String),
}

/// Where the kernels are and how states are requested.
#[derive(Clone)]
pub struct SpiceKernelConfig {
    pub kernel_dir: String,
    pub kernel_files: Vec<String>,
    pub frame: String,
    pub abcorr: String,
    pub verbose: bool,
}

/// The kernel set of the default configuration, in load order.
pub open spec fn default_kernel_files() -> Seq<Seq<char>> {
    seq!["naif0012.tls"@, "de440.bsp"@, "gm_de440.tpc"@, "pck00010.tpc"@]
}

/// The texts of a sequence of strings.
pub open spec fn string_views(files: Seq<String>) -> Seq<Seq<char>> {
    files.map_values(|s: String| s@)
}

impl Default for SpiceKernelConfig {
    fn default() -> (c: Self)
        ensures
            c.kernel_dir@ == "~/kernels"@,
            string_views(c.kernel_files@) == default_kernel_files(),
            c.frame@ == "J2000"@,
            c.abcorr@ == "LT+S"@,
            !c.verbose,
    {
        let mut files: Vec<String> = Vec::new();
        files.push(String::from_str("naif0012.tls"));
        files.push(String::from_str("de440.bsp"));
        files.push(String::from_str("gm_de440.tpc"));
        files.push(String::from_str("pck00010.tpc"));
        let c = SpiceKernelConfig {
            kernel_dir: String::from_str("~/kernels"),
            kernel_files: files,
            frame: String::from_str("J2000"),
            abcorr: String::from_str("LT+S"),
            verbose: false,
        };
        assert(string_views(c.kernel_files@) =~= default_kernel_files());
        c
    }
}

/// True when a leading `~` of the path may be expanded: it is the whole path
/// or is followed by a path separator (`/`, or `\` on Windows).
pub open spec fn tilde_expands(path: Seq<char>) -> bool {
    &&& path.len() >= 1
    &&& path[0] == '~'
    &&& (path.len() == 1 || path[1] == '/' || path[1] == '\\')
}

/// What `shellexpand::tilde` may return for `path`: the path itself, or, when
/// the leading `~` expands, a home directory, never empty, followed by the
/// rest of it (the `~` is replaced, never dropped).
pub open spec fn tilde_outcome(path: Seq<char>, out: Seq<char>) -> bool {
    if tilde_expands(path) {
        out == path || exists|home: Seq<char>| home.len() > 0 && out == home + path.drop_first()
    } else {
        out == path
    }
}

/// An expansion of a leading `~` never shortens the path and keeps all that
/// follows the `~`, at the end: the `~` is replaced by a home directory or
/// left as it is.
pub proof fn lemma_tilde_expansion_keeps_rest(path: Seq<char>, out: Seq<char>)
    requires
        tilde_expands(path),
        tilde_outcome(path, out),
    ensures
        out.len() >= path.len(),
        out.subrange(out.len() - (path.len() - 1), out.len() as int) =~= path.drop_first(),
{
    if out != path {
        let home = choose|home: Seq<char>| home.len() > 0 && out == home + path.drop_first();
        assert(out.subrange(out.len() - (path.len() - 1), out.len() as int) =~= path.drop_first());
    } else {
        assert(out.subrange(1, out.len() as int) =~= path.drop_first());
    }
}

/// Calls `shellexpand::tilde`.  The home directory that replaces the `~`
/// comes from the environment of the process, so the contract says only that
/// a path without an expandable `~` is returned unchanged and that otherwise
/// the result is the path itself (no home directory known, or a `\` after
/// the `~` on a platform other than Windows) or a home directory followed by
/// the rest of the path.  The home directory is the one `dirs::home_dir`
/// gives, which is never empty: `$HOME` only when it is set and not empty,
/// else the home field of the user's entry only when it is not empty, else
/// none at all (on Windows, the profile folder that the system reports).
/// Which home directory it is, is not stated.
#[verifier::external_body]
fn expand_tilde(path: &str) -> (out: String)
    ensures
        tilde_outcome(path@, out@),
{
    shellexpand::tilde(path).into_owned()
}

/// The calls that change a context, for the law on call sequences; the
/// queries take the context by shared reference and change nothing.
pub enum ContextCall {
    SetVerbose(bool),
    FinishLoading,
}

/// The context after one call.
pub open spec fn after_call(v: SpiceContextView, c: ContextCall) -> SpiceContextView {
    match c {
        ContextCall::SetVerbose(verbose) => SpiceContextView {
            config: SpiceKernelConfig { verbose: verbose, ..v.config },
            loaded: v.loaded,
        },
        ContextCall::FinishLoading => SpiceContextView { config: v.config, loaded: true },
    }
}

/// The context after a sequence of calls, in order.
pub open spec fn after_calls(v: SpiceContextView, calls: Seq<ContextCall>) -> SpiceContextView
    decreases calls.len(),
{
    if calls.len() == 0 {
        v
    } else {
        after_call(after_calls(v, calls.drop_last()), calls.last())
    }
}

/// A context that starts unloaded is loaded after a sequence of calls exactly
/// when one of them completed a load: the flag is set only by a completed
/// load and nothing clears it.
pub proof fn lemma_loaded_iff_some_load_completed(v: SpiceContextView, calls: Seq<ContextCall>)
    requires
        !v.loaded,
    ensures
        after_calls(v, calls).loaded <==> exists|i: int| 0 <= i < calls.len() && calls[i] is FinishLoading,
    decreases calls.len(),
{
    if calls.len() > 0 {
        let init = calls.drop_last();
        lemma_loaded_iff_some_load_completed(v, init);
        if after_calls(v, calls).loaded && !(calls.last() is FinishLoading) {
            let i = choose|i: int| 0 <= i < init.len() && init[i] is FinishLoading;
            assert(calls[i] is FinishLoading);
        }
        if exists|i: int| 0 <= i < calls.len() && calls[i] is FinishLoading {
            let i = choose|i: int| 0 <= i < calls.len() && calls[i] is FinishLoading;
            if i < calls.len() - 1 {
                assert(init[i] is FinishLoading);
            }
        }
    }
}

/// The next step of loading the kernels.
#[derive(Clone, Copy, PartialEq, Eq, Debug, Structural)]
pub enum KernelLoadStep {
    /// Find and furnish the configured kernel with this index.
    Furnish(usize),
    /// Every kernel is furnished: inject the missing body parameters and
    /// finish the load.
    Finish,
}

/// What the context holds, for contracts.
pub struct SpiceContextView {
    pub config: SpiceKernelConfig,
    pub loaded: bool,
}

/// A SPICE context: its configuration and whether its kernels are loaded.
#[derive(Clone)]
pub struct SpiceContext {
    config: SpiceKernelConfig,
    loaded: bool,
}

impl View for SpiceContext {
    type V = SpiceContextView;

    closed spec fn view(&self) -> SpiceContextView {
        SpiceContextView { config: self.config, loaded: self.loaded }
    }
}

impl SpiceContext {
    /// A context with the given configuration and nothing loaded yet.
    pub fn new(config: SpiceKernelConfig) -> (ctx: Self)
        ensures
            ctx@.config == config,
            !ctx@.loaded,
    {
        SpiceContext { config, loaded: false }
    }

    /// Whether the kernels have been loaded.
    pub fn is_loaded(&self) -> (b: bool)
        ensures
            b == self@.loaded,
    {
        self.loaded
    }

    /// The configuration of the context.
    pub fn config(&self) -> (c: &SpiceKernelConfig)
        ensures
            *c == self@.config,
    {
        &self.config
    }

    /// Turns the progress messages of kernel loading on or off.
    pub fn set_verbose(&mut self, verbose: bool)
        ensures
            final(self)@ == after_call(old(self)@, ContextCall::SetVerbose(verbose)),
    {
        self.config.verbose = verbose;
    }

    /// The kernel directory with a leading `~` expanded to the home directory.
    pub fn kernel_directory(&self) -> (dir: String)
        ensures
            tilde_outcome(self@.config.kernel_dir@, dir@),
    {
        expand_tilde(self.config.kernel_dir.as_str())
    }

    /// What loading does after the first `furnished` configured kernels have
    /// been furnished, in order: furnish the next one, or finish once all are.
    pub fn next_load_step(&self, furnished: usize) -> (s: KernelLoadStep)
        requires
            furnished <= self@.config.kernel_files.len(),
        ensures
            furnished < self@.config.kernel_files.len() ==> s == KernelLoadStep::Furnish(furnished),
            furnished == self@.config.kernel_files.len() ==> s == KernelLoadStep::Finish,
    {
        if furnished < self.config.kernel_files.len() {
            KernelLoadStep::Furnish(furnished)
        } else {
            KernelLoadStep::Finish
        }
    }

    /// Completes a load in which every configured kernel was furnished (the
    /// count must be that of the configured kernels) and the missing body
    /// parameters were injected: the context is loaded from now on.
    pub fn finish_loading(&mut self, furnished: usize)
        requires
            furnished == old(self)@.config.kernel_files.len(),
        ensures
            final(self)@ == after_call(old(self)@, ContextCall::FinishLoading),
    {
        self.loaded = true;
    }

    /// The guard that precedes every query: it fails with `NotLoaded` exactly
    /// when the kernels are not loaded.
    pub fn ensure_loaded(&self) -> (r: Result<(), SpiceError>)
        ensures
            r is Ok <==> self@.loaded,
            r is Err ==> r == Err::<(), SpiceError>(SpiceError::NotLoaded),
    {
        if !self.loaded {
            return Err(SpiceError::NotLoaded);
        }
        Ok(())
    }
}

} // verus!
