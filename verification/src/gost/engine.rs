//! When the gost-engine is loaded, and how.
//!
//! The engine is loaded once. [`EngineCell`] keeps the outcome of the first attempt, and every
//! later question is answered from it. The file comes from the configuration and from nowhere
//! else: without a configured path nothing is attempted, and that refusal is not kept, so that a
//! later question that does name the file still gets an attempt. There is no search by the
//! engine's id: libcrypto would load whatever its search path holds, and a caller reaches these
//! functions simply by presenting a certificate that claims a GOST signature.
//!
//! [`EngineLoad`] is the attempt itself: it says which call into libcrypto comes next and what its
//! answer means. Its caller makes the calls.

use crate::config::validated::ValidatedConfig;
use crate::gost::errors::GostEngineError;
use crate::text::{cat2, cat4, dec_int, decimal_i64};
use crate::x509::SignatureAlg;
use vstd::prelude::*;
use vstd::string::*;

verus! {

/// The outcome of the first attempt to load the engine, once there was one.
#[derive(Debug)]
pub struct EngineCell {
    outcome: Option<Result<(), GostEngineError>>,
}

/// What a question about the engine comes to.
#[derive(Debug)]
pub enum EngineStep {
    /// The answer.
    Settled(Result<(), GostEngineError>),
    /// The engine must be loaded from this file; the outcome settles the cell.
    LoadFrom(String),
}

/// The answer to a question about the engine.
pub open spec fn engine_step(
    cell: Option<Result<(), GostEngineError>>,
    path: Option<String>,
) -> EngineStep {
    match path {
        None => EngineStep::Settled(Err(GostEngineError::PathNotConfigured)),
        Some(p) => match cell {
            Some(r) => EngineStep::Settled(r),
            None => EngineStep::LoadFrom(p),
        },
    }
}

/// The answer where the engine is needed only under a condition.
pub open spec fn engine_step_if(
    needed: bool,
    cell: Option<Result<(), GostEngineError>>,
    path: Option<String>,
) -> EngineStep {
    if needed {
        engine_step(cell, path)
    } else {
        EngineStep::Settled(Ok(()))
    }
}

impl View for EngineCell {
    type V = Option<Result<(), GostEngineError>>;

    closed spec fn view(&self) -> Option<Result<(), GostEngineError>> {
        self.outcome
    }
}

impl EngineCell {
    /// A cell before any attempt.
    pub fn new() -> (r: EngineCell)
        ensures
            r@ is None,
    {
        EngineCell { outcome: None }
    }

    /// Keeps the outcome of an attempt, unless one is kept already, and answers with what is kept.
    pub fn settle(&mut self, outcome: Result<(), GostEngineError>) -> (r: Result<
        (),
        GostEngineError,
    >)
        ensures
            old(self)@ is None ==> final(self)@ == Some(outcome),
            old(self)@ is Some ==> final(self)@ == old(self)@,
            final(self)@ == Some(r),
    {
        if self.outcome.is_none() {
            self.outcome = Some(outcome);
        }
        match &self.outcome {
            Some(Ok(done)) => Ok(*done),
            Some(Err(e)) => Err(e.duplicate()),
            None => Ok(()),
        }
    }

    /// Whether an attempt was made.
    pub fn is_settled(&self) -> (r: bool)
        ensures
            r == self@ is Some,
    {
        self.outcome.is_some()
    }
}

/// What is to be done so that the engine of a configuration is loaded.
pub fn ensure_loaded(cell: &EngineCell, cfg: &ValidatedConfig) -> (r: EngineStep)
    ensures
        r == engine_step(cell@, cfg.gost_engine_path),
{
    ensure_loaded_with_path(cell, &cfg.gost_engine_path)
}

/// What is to be done so that the engine in a file is loaded. Without a file nothing is: the
/// question is refused, and the cell stays as it is.
pub fn ensure_loaded_with_path(cell: &EngineCell, gost_engine_path: &Option<String>) -> (r:
    EngineStep)
    ensures
        r == engine_step(cell@, *gost_engine_path),
{
    match gost_engine_path {
        None => EngineStep::Settled(Err(GostEngineError::PathNotConfigured)),
        Some(p) => match &cell.outcome {
            Some(Ok(done)) => EngineStep::Settled(Ok(*done)),
            Some(Err(e)) => EngineStep::Settled(Err(e.duplicate())),
            None => EngineStep::LoadFrom(p.clone()),
        },
    }
}

/// Whether any of the algorithms is a GOST one.
pub open spec fn some_gost(algs: Seq<SignatureAlg>) -> bool {
    exists|i: int| 0 <= i < algs.len() && (#[trigger] algs[i]).gost()
}

/// What is to be done so that certificates signed with these algorithms can be verified. Where
/// none is a GOST one the engine is left alone.
pub fn ensure_loaded_if_any_gost(
    cell: &EngineCell,
    algs: &[SignatureAlg],
    gost_engine_path: &Option<String>,
) -> (r: EngineStep)
    ensures
        r == engine_step_if(some_gost(algs@), cell@, *gost_engine_path),
{
    let mut i: usize = 0;
    while i < algs.len()
        invariant
            i <= algs@.len(),
            forall|k: int| 0 <= k < i ==> !(#[trigger] algs@[k]).gost(),
        decreases algs@.len() - i,
    {
        if algs[i].is_gost() {
            assert(some_gost(algs@));
            return ensure_loaded_with_path(cell, gost_engine_path);
        }
        i = i + 1;
    }
    EngineStep::Settled(Ok(()))
}

/// What is to be done so that a signature of this algorithm can be verified.
pub fn ensure_loaded_if_signature_alg_gost(
    cell: &EngineCell,
    sig_alg: &SignatureAlg,
    gost_engine_path: &Option<String>,
) -> (r: EngineStep)
    ensures
        r == engine_step_if(sig_alg.gost(), cell@, *gost_engine_path),
{
    if sig_alg.is_gost() {
        ensure_loaded_with_path(cell, gost_engine_path)
    } else {
        EngineStep::Settled(Ok(()))
    }
}

/// Whether the engine was loaded.
pub open spec fn available(cell: Option<Result<(), GostEngineError>>) -> bool {
    cell is Some && cell->0 is Ok
}

/// Whether the engine was loaded. Nothing is attempted.
pub fn is_available(cell: &EngineCell) -> (r: bool)
    ensures
        r == available(cell@),
{
    matches!(cell.outcome, Some(Ok(())))
}

/// Whether the engine is loaded after an attempt, whose outcome is `attempt` where one is due.
/// Without a file the answer is that of before.
pub fn is_available_after_attempt(
    cell: &mut EngineCell,
    path: &Option<String>,
    attempt: Result<(), GostEngineError>,
) -> (r: bool)
    ensures
        final(cell)@ == if *path is Some && old(cell)@ is None {
            Some(attempt)
        } else {
            old(cell)@
        },
        r == available(final(cell)@),
{
    if path.is_some() {
        let _ = cell.settle(attempt);
    }
    is_available(cell)
}

// --- the attempt ------------------------------------------------------------

/// The call that an attempt makes next.
#[derive(Debug)]
pub enum LoadAction {
    /// Look whether the file exists.
    CheckFile,
    /// Find the loader engine of libcrypto.
    FindLoader,
    /// Remove any registration under the engine's id, without loading anything.
    ClearRegistration,
    /// Name the file to the loader.
    SetFile,
    /// Name the id to the loader.
    SetId,
    /// Have the loader load the engine.
    Load,
    /// Initialise the engine.
    Init,
    /// Make the engine the default for everything it implements.
    SetDefault,
    /// Look whether a digest of this name is registered.
    ProbeDigest(&'static str),
    /// Nothing: the engine is loaded.
    Done,
    /// Nothing, once what the attempt holds is released: it failed.
    Fail(GostEngineError, Held),
}

/// What an attempt holds of the engine and must release when it fails.
#[derive(Debug, Clone, Copy, PartialEq, Eq, Structural)]
pub enum Held {
    /// Nothing.
    Nothing,
    /// A reference to the engine.
    Reference,
    /// A reference to the initialised engine.
    Initialised,
}

/// The answer to a call.
#[derive(Debug, Clone, Copy, PartialEq, Eq, Structural)]
pub enum LoadReply {
    /// To a question: yes or no.
    Yes(bool),
    /// To a call into the engine: its return code, one for success.
    Code(i32),
}

/// How far an attempt has come: the call whose answer is awaited.
#[derive(Debug, Clone, Copy, PartialEq, Eq, Structural)]
pub enum LoadStage {
    /// Whether the file exists.
    File,
    /// Whether there is a loader.
    Loader,
    /// That the registration was cleared.
    Cleared,
    /// That the file was named.
    FileSet,
    /// That the id was named.
    IdSet,
    /// That the engine was loaded.
    Loaded,
    /// That the engine was initialised.
    Initialised,
    /// That the engine was made the default.
    Default,
    /// Whether the digest has its usual name.
    Digest,
    /// Whether the digest has its other name.
    OtherDigest,
    /// Nothing any more.
    Ended,
}

/// An attempt to load the engine from a file.
#[derive(Debug)]
pub struct EngineLoad {
    /// The file.
    pub path: String,
    /// How far the attempt has come.
    pub stage: LoadStage,
}

/// The failure of one of the three commands to the loader, with their return codes.
pub open spec fn command_failure(path: Seq<char>, file: int, id: int, load: int) -> Seq<char> {
    "ENGINE_ctrl_cmd_string sequence (SO_PATH="@ + dec_int(file) + ", ID="@ + dec_int(id)
        + ", LOAD="@ + dec_int(load) + ") failed for "@ + path
}

/// What an attempt does after an answer, as contracts speak of it.
pub ghost enum LoadMove {
    /// The next call.
    Next(LoadStage),
    /// The engine is loaded.
    Done,
    /// The file is missing.
    PathMissing,
    /// There is no loader.
    NoLoader,
    /// Loading failed, for this reason; what is held is to be released.
    LoadFailed(Seq<char>, Held),
    /// The engine could not be made the default.
    SetDefaultFailed(Seq<char>),
    /// The digest is missing.
    NoDigest,
}

/// Whether an answer is a success.
pub open spec fn succeeded(r: LoadReply) -> bool {
    r == LoadReply::Yes(true) || r == LoadReply::Code(1)
}

/// The return code in an answer.
pub open spec fn code_of(r: LoadReply) -> int {
    match r {
        LoadReply::Code(n) => n as int,
        LoadReply::Yes(b) => if b {
            1
        } else {
            0
        },
    }
}

/// What an attempt does after an answer.
pub open spec fn load_move(path: Seq<char>, stage: LoadStage, reply: LoadReply) -> LoadMove {
    match stage {
        LoadStage::File => if succeeded(reply) {
            LoadMove::Next(LoadStage::Loader)
        } else {
            LoadMove::PathMissing
        },
        LoadStage::Loader => if succeeded(reply) {
            LoadMove::Next(LoadStage::Cleared)
        } else {
            LoadMove::NoLoader
        },
        // Clearing is a best effort: where it fails, loading will.
        LoadStage::Cleared => LoadMove::Next(LoadStage::FileSet),
        LoadStage::FileSet => if succeeded(reply) {
            LoadMove::Next(LoadStage::IdSet)
        } else {
            LoadMove::LoadFailed(command_failure(path, code_of(reply), 0, 0), Held::Reference)
        },
        LoadStage::IdSet => if succeeded(reply) {
            LoadMove::Next(LoadStage::Loaded)
        } else {
            LoadMove::LoadFailed(command_failure(path, 1, code_of(reply), 0), Held::Reference)
        },
        LoadStage::Loaded => if succeeded(reply) {
            LoadMove::Next(LoadStage::Initialised)
        } else {
            LoadMove::LoadFailed(command_failure(path, 1, 1, code_of(reply)), Held::Reference)
        },
        LoadStage::Initialised => if succeeded(reply) {
            LoadMove::Next(LoadStage::Default)
        } else {
            LoadMove::LoadFailed(
                "ENGINE_init after LOAD returned "@ + dec_int(code_of(reply)) + " for "@ + path,
                Held::Reference,
            )
        },
        LoadStage::Default => if succeeded(reply) {
            LoadMove::Next(LoadStage::Digest)
        } else {
            LoadMove::SetDefaultFailed("ENGINE_set_default returned "@ + dec_int(code_of(reply)))
        },
        LoadStage::Digest => if succeeded(reply) {
            LoadMove::Done
        } else {
            LoadMove::Next(LoadStage::OtherDigest)
        },
        LoadStage::OtherDigest => if succeeded(reply) {
            LoadMove::Done
        } else {
            LoadMove::NoDigest
        },
        LoadStage::Ended => LoadMove::Next(LoadStage::Ended),
    }
}

/// Whether an action is the call whose answer a stage awaits.
pub open spec fn asks_for(stage: LoadStage, a: LoadAction) -> bool {
    match stage {
        LoadStage::File => a is CheckFile,
        LoadStage::Loader => a is FindLoader,
        LoadStage::Cleared => a is ClearRegistration,
        LoadStage::FileSet => a is SetFile,
        LoadStage::IdSet => a is SetId,
        LoadStage::Loaded => a is Load,
        LoadStage::Initialised => a is Init,
        LoadStage::Default => a is SetDefault,
        LoadStage::Digest => a matches LoadAction::ProbeDigest(n) && n@ == "md_gost12_256"@,
        LoadStage::OtherDigest => a matches LoadAction::ProbeDigest(n) && n@ == "streebog256"@,
        LoadStage::Ended => a is Done,
    }
}

/// Whether an attempt made the given move.
pub open spec fn moved(m: LoadMove, path: String, after: EngineLoad, a: LoadAction) -> bool {
    &&& after.path == path
    &&& match m {
        LoadMove::Next(s) => after.stage == s && asks_for(s, a),
        LoadMove::Done => after.stage == LoadStage::Ended && a is Done,
        LoadMove::PathMissing => after.stage == LoadStage::Ended && (a matches LoadAction::Fail(
            GostEngineError::PathMissing(p),
            h,
        ) && p == path && h == Held::Nothing),
        LoadMove::NoLoader => after.stage == LoadStage::Ended && (a matches LoadAction::Fail(
            GostEngineError::NotAvailable(why),
            h,
        ) && h == Held::Nothing && why@
            == "libcrypto has no `dynamic` engine — built without ENGINE support"@),
        LoadMove::LoadFailed(reason, held) => after.stage == LoadStage::Ended && (
        a matches LoadAction::Fail(GostEngineError::LoadFailed(why), h) && h == held && why@
            == reason),
        LoadMove::SetDefaultFailed(reason) => after.stage == LoadStage::Ended && (
        a matches LoadAction::Fail(GostEngineError::SetDefaultFailed(why), h) && h
            == Held::Initialised && why@ == reason),
        LoadMove::NoDigest => after.stage == LoadStage::Ended && (a matches LoadAction::Fail(
            GostEngineError::DigestUnavailable { name },
            h,
        ) && h == Held::Initialised && name@ == "md_gost12_256 not registered after engine load"@),
    }
}

fn command_failed(path: &String, file: i32, id: i32, load: i32) -> (r: LoadAction)
    ensures
        r matches LoadAction::Fail(GostEngineError::LoadFailed(why), h) && h == Held::Reference
            && why@ == command_failure(path@, file as int, id as int, load as int),
{
    let mut text = cat4(
        "ENGINE_ctrl_cmd_string sequence (SO_PATH=",
        decimal_i64(file as i64).as_str(),
        ", ID=",
        decimal_i64(id as i64).as_str(),
    );
    text.append(", LOAD=");
    text.append(decimal_i64(load as i64).as_str());
    text.append(") failed for ");
    text.append(path.as_str());
    LoadAction::Fail(GostEngineError::LoadFailed(text), Held::Reference)
}

fn reply_code(r: LoadReply) -> (n: i32)
    ensures
        n == code_of(r),
{
    match r {
        LoadReply::Code(n) => n,
        LoadReply::Yes(true) => 1,
        LoadReply::Yes(false) => 0,
    }
}

impl EngineLoad {
    /// Begins an attempt with a file. The first call looks whether it exists.
    pub fn begin(path: String) -> (r: (EngineLoad, LoadAction))
        ensures
            r.0 == (EngineLoad { path, stage: LoadStage::File }),
            r.1 is CheckFile,
    {
        (EngineLoad { path, stage: LoadStage::File }, LoadAction::CheckFile)
    }

    /// Takes in an answer, and says what comes next.
    pub fn on_reply(&mut self, reply: LoadReply) -> (r: LoadAction)
        ensures
            moved(
                load_move(old(self).path@, old(self).stage, reply),
                old(self).path,
                *final(self),
                r,
            ),
    {
        let n: i32 = reply_code(reply);
        let ok = n == 1;
        match self.stage {
            LoadStage::File => {
                if ok {
                    self.stage = LoadStage::Loader;
                    return LoadAction::FindLoader;
                }
                self.stage = LoadStage::Ended;
                LoadAction::Fail(GostEngineError::PathMissing(self.path.clone()), Held::Nothing)
            },
            LoadStage::Loader => {
                if ok {
                    self.stage = LoadStage::Cleared;
                    return LoadAction::ClearRegistration;
                }
                self.stage = LoadStage::Ended;
                LoadAction::Fail(
                    GostEngineError::NotAvailable(
                        "libcrypto has no `dynamic` engine — built without ENGINE support".to_owned(),
                    ),
                    Held::Nothing,
                )
            },
            LoadStage::Cleared => {
                self.stage = LoadStage::FileSet;
                LoadAction::SetFile
            },
            LoadStage::FileSet => {
                if ok {
                    self.stage = LoadStage::IdSet;
                    return LoadAction::SetId;
                }
                self.stage = LoadStage::Ended;
                command_failed(&self.path, n, 0, 0)
            },
            LoadStage::IdSet => {
                if ok {
                    self.stage = LoadStage::Loaded;
                    return LoadAction::Load;
                }
                self.stage = LoadStage::Ended;
                command_failed(&self.path, 1, n, 0)
            },
            LoadStage::Loaded => {
                if ok {
                    self.stage = LoadStage::Initialised;
                    return LoadAction::Init;
                }
                self.stage = LoadStage::Ended;
                command_failed(&self.path, 1, 1, n)
            },
            LoadStage::Initialised => {
                if ok {
                    self.stage = LoadStage::Default;
                    return LoadAction::SetDefault;
                }
                self.stage = LoadStage::Ended;
                let why = cat4(
                    "ENGINE_init after LOAD returned ",
                    decimal_i64(n as i64).as_str(),
                    " for ",
                    self.path.as_str(),
                );
                LoadAction::Fail(GostEngineError::LoadFailed(why), Held::Reference)
            },
            LoadStage::Default => {
                if ok {
                    self.stage = LoadStage::Digest;
                    return LoadAction::ProbeDigest("md_gost12_256");
                }
                self.stage = LoadStage::Ended;
                let why = cat2(
                    "ENGINE_set_default returned ",
                    decimal_i64(n as i64).as_str(),
                );
                LoadAction::Fail(GostEngineError::SetDefaultFailed(why), Held::Initialised)
            },
            LoadStage::Digest => {
                if ok {
                    self.stage = LoadStage::Ended;
                    return LoadAction::Done;
                }
                self.stage = LoadStage::OtherDigest;
                LoadAction::ProbeDigest("streebog256")
            },
            LoadStage::OtherDigest => {
                self.stage = LoadStage::Ended;
                if ok {
                    return LoadAction::Done;
                }
                LoadAction::Fail(
                    GostEngineError::digest_unavailable(
                        "md_gost12_256 not registered after engine load",
                    ),
                    Held::Initialised,
                )
            },
            LoadStage::Ended => LoadAction::Done,
        }
    }
}

/// Without a configured file nothing is ever loaded, whatever a certificate claims.
pub proof fn nothing_is_loaded_without_a_file(
    needed: bool,
    cell: Option<Result<(), GostEngineError>>,
)
    ensures
        !(engine_step_if(needed, cell, None) is LoadFrom),
        engine_step(cell, None) == EngineStep::Settled(Err(GostEngineError::PathNotConfigured)),
{
}

/// Once an attempt was made its outcome answers every question that names a file.
pub proof fn outcome_is_kept(
    outcome: Result<(), GostEngineError>,
    path: String,
)
    ensures
        engine_step(Some(outcome), Some(path)) == EngineStep::Settled(outcome),
{
}

/// An engine becomes the default only after it was loaded from the named file under a cleared id,
/// and an attempt ends well only with a digest registered.
pub proof fn load_follows_its_order(path: Seq<char>, stage: LoadStage, reply: LoadReply)
    ensures
        load_move(path, stage, reply) == LoadMove::Next(LoadStage::FileSet) ==> stage
            == LoadStage::Cleared,
        load_move(path, stage, reply) == LoadMove::Next(LoadStage::IdSet) ==> stage
            == LoadStage::FileSet && succeeded(reply),
        load_move(path, stage, reply) == LoadMove::Next(LoadStage::Loaded) ==> stage
            == LoadStage::IdSet && succeeded(reply),
        load_move(path, stage, reply) == LoadMove::Next(LoadStage::Default) ==> stage
            == LoadStage::Initialised && succeeded(reply),
        load_move(path, stage, reply) is Done ==> (stage == LoadStage::Digest || stage
            == LoadStage::OtherDigest) && succeeded(reply),
{
}

/// The engine is loaded from the configured file, once: the first attempt decides, whatever file is
/// named afterwards; and a certificate without GOST needs nothing.
pub proof fn engine_is_loaded_once(
    cell: Option<Result<(), GostEngineError>>,
    path: Option<String>,
    needed: bool,
)
    ensures
        (path matches Some(p) && cell is None) ==> engine_step(cell, path) == EngineStep::LoadFrom(
            path->0,
        ),
        engine_step(cell, path) is LoadFrom ==> cell is None && path is Some,
        (path is Some && cell matches Some(r)) ==> engine_step(cell, path) == EngineStep::Settled(
            cell->0,
        ),
        !needed ==> engine_step_if(needed, cell, path) == EngineStep::Settled(Ok(())),
        needed ==> engine_step_if(needed, cell, path) == engine_step(cell, path),
        available(cell) <==> (cell matches Some(r) && r is Ok),
{
}

/// One GOST signature in a chain is enough to need the engine.
pub proof fn one_gost_signature_is_enough(algs: Seq<SignatureAlg>, i: int)
    requires
        0 <= i < algs.len(),
        algs[i] == SignatureAlg::IdTc26SignWithDigestGostR341012_256 || algs[i]
            == SignatureAlg::IdTc26SignWithDigestGostR341012_512,
    ensures
        some_gost(algs),
{
}

/// What stands between the file and a loaded engine: each call in its turn, with one digest or the
/// other found at the end.
pub proof fn successful_calls_lead_to_the_end(path: Seq<char>, reply: LoadReply)
    requires
        reply == LoadReply::Yes(true) || reply == LoadReply::Code(1),
    ensures
        load_move(path, LoadStage::File, reply) == LoadMove::Next(LoadStage::Loader),
        load_move(path, LoadStage::Loader, reply) == LoadMove::Next(LoadStage::Cleared),
        load_move(path, LoadStage::Cleared, reply) == LoadMove::Next(LoadStage::FileSet),
        load_move(path, LoadStage::FileSet, reply) == LoadMove::Next(LoadStage::IdSet),
        load_move(path, LoadStage::IdSet, reply) == LoadMove::Next(LoadStage::Loaded),
        load_move(path, LoadStage::Loaded, reply) == LoadMove::Next(LoadStage::Initialised),
        load_move(path, LoadStage::Initialised, reply) == LoadMove::Next(LoadStage::Default),
        load_move(path, LoadStage::Default, reply) == LoadMove::Next(LoadStage::Digest),
        load_move(path, LoadStage::Digest, reply) == LoadMove::Done,
        load_move(path, LoadStage::OtherDigest, reply) == LoadMove::Done,
{
}

/// A call that fails ends the attempt, but for clearing, which is a best effort, and for the first
/// digest, after which the other is tried. What was held at that point is to be released: nothing
/// before loading begins, a reference until the engine is initialised, and then both.
pub proof fn failed_call_ends_the_attempt(path: Seq<char>, stage: LoadStage, n: i32)
    requires
        n != 1,
    ensures
        load_move(path, LoadStage::File, LoadReply::Yes(false)) is PathMissing,
        load_move(path, LoadStage::Loader, LoadReply::Yes(false)) is NoLoader,
        load_move(path, LoadStage::Cleared, LoadReply::Yes(false)) == LoadMove::Next(
            LoadStage::FileSet,
        ),
        load_move(path, LoadStage::Digest, LoadReply::Yes(false)) == LoadMove::Next(
            LoadStage::OtherDigest,
        ),
        load_move(path, LoadStage::OtherDigest, LoadReply::Yes(false)) is NoDigest,
        stage == LoadStage::FileSet || stage == LoadStage::IdSet || stage == LoadStage::Loaded
            || stage == LoadStage::Initialised ==> (load_move(path, stage, LoadReply::Code(n))
            matches LoadMove::LoadFailed(_, held) && held == Held::Reference),
        load_move(path, LoadStage::Default, LoadReply::Code(n)) is SetDefaultFailed,
{
}

/// The digests that are looked for, and what is asked for at each stage.
pub proof fn stages_ask_for_their_calls(a: LoadAction)
    ensures
        asks_for(LoadStage::File, a) <==> a is CheckFile,
        asks_for(LoadStage::Loader, a) <==> a is FindLoader,
        asks_for(LoadStage::FileSet, a) <==> a is SetFile,
        asks_for(LoadStage::IdSet, a) <==> a is SetId,
        asks_for(LoadStage::Loaded, a) <==> a is Load,
        asks_for(LoadStage::Initialised, a) <==> a is Init,
        asks_for(LoadStage::Default, a) <==> a is SetDefault,
        a matches LoadAction::ProbeDigest(n) ==> (asks_for(LoadStage::Digest, a) <==> n@
            == "md_gost12_256"@),
        a matches LoadAction::ProbeDigest(n) ==> (asks_for(LoadStage::OtherDigest, a) <==> n@
            == "streebog256"@),
        !(a is ProbeDigest) ==> !asks_for(LoadStage::Digest, a) && !asks_for(
            LoadStage::OtherDigest,
            a,
        ),
{
}

/// A failed attempt is ended, and what it holds goes with its error: after the file or the loader
/// is missing, nothing; after the engine was initialised, the engine.
pub proof fn failures_say_what_is_held(m: LoadMove, path: String, after: EngineLoad, a: LoadAction)
    requires
        moved(m, path, after, a),
        !(m is Next),
    ensures
        after.stage == LoadStage::Ended,
        after.path == path,
        m is Done <==> a is Done,
        m is PathMissing ==> a == LoadAction::Fail(
            GostEngineError::PathMissing(path),
            Held::Nothing,
        ),
        m is NoLoader ==> (a matches LoadAction::Fail(_, held) && held == Held::Nothing),
        m is SetDefaultFailed || m is NoDigest ==> (a matches LoadAction::Fail(_, held) && held
            == Held::Initialised),
{
}

/// The number that a reply counts as, which is what a failure reports.
pub proof fn replies_count_as_numbers(n: i32)
    ensures
        code_of(LoadReply::Code(n)) == n,
        code_of(LoadReply::Yes(true)) == 1,
        code_of(LoadReply::Yes(false)) == 0,
        succeeded(LoadReply::Code(n)) <==> n == 1,
        succeeded(LoadReply::Yes(true)) && !succeeded(LoadReply::Yes(false)),
{
}

} // verus!
