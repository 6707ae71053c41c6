//! Host identity resolver chain.

use crate::audit::{
    bare_event, with_text, AuditEvent, AuditLevel, EventModel, ValueModel,
};
use crate::config::validated::{HostIdFallback, HostIdentitySection};
use crate::error::HostIdentityError;
use crate::foreign::{hex_text, sha256, to_lowercase, unicode_lower};
use crate::host_binding::{hash_text, sha256_hex};
use crate::host_identity::custom_command::{is_command_value, CustomCommandSource};
use crate::host_identity::dmi::{
    DmiBoardSerialSource, DmiSystemSerialSource, DmiSystemUuidSource,
};
use crate::host_identity::hostname::HostnameSource;
use crate::host_identity::machine_id::MachineIdSource;
use crate::host_identity::source::{
    is_file_value, joined, HostIdSource, HostIdSourceKind, SourceReply, SourceRequest,
};
use crate::text::{
    is_space, lemma_trimmed_fixed, lower_char, to_lower_char, trim, trimmed,
};
use vstd::prelude::*;
use vstd::string::*;
use vstd::utf8::{encode_utf8, is_char_boundary};

verus! {

/// The lower case of a character: of an ASCII one the ASCII lower case, of another that of the
/// Unicode mapping.
pub open spec fn lower_of(c: char) -> Seq<char> {
    if c <= '\u{7f}' {
        seq![lower_char(c)]
    } else {
        unicode_lower(c)
    }
}

/// The characters of a host id that count, in lower case.
pub open spec fn lowered(s: Seq<char>) -> Seq<char>
    decreases s.len(),
{
    if s.len() == 0 {
        Seq::empty()
    } else {
        let rest = lowered(s.drop_last());
        if s.last() == ':' || s.last() == ' ' {
            rest
        } else {
            rest + lower_of(s.last())
        }
    }
}

/// A host id without surrounding white space, colons and blanks, in lower case.
pub open spec fn normalized_id(s: Seq<char>) -> Seq<char> {
    lowered(trimmed(s))
}

/// Normalize a host id.
pub fn normalize_host_id(input: &str) -> (r: String)
    ensures
        r@ == normalized_id(input@),
{
    let inner = trim(input);
    let mut out = String::new();
    assert(inner@.take(0) =~= Seq::<char>::empty());
    for c in it: inner.as_str().chars()
        invariant
            it.seq() == inner@,
            out@ == lowered(inner@.take(it.index())),
    {
        proof {
            assert(inner@.take(it.index() + 1).drop_last() =~= inner@.take(it.index()));
        }
        if c != ':' && c != ' ' {
            if c <= '\u{7f}' {
                out.push(to_lower_char(c));
            } else {
                out.append(to_lowercase(c).as_str());
            }
        }
        assert(out@ =~= lowered(inner@.take(it.index() + 1)));
    }
    assert(inner@.take(inner@.len() as int) =~= inner@);
    out
}

/// Whether a character is an ASCII one.
pub open spec fn is_ascii_char(c: char) -> bool {
    c <= '\u{7f}'
}

proof fn lemma_lowered(s: Seq<char>)
    requires
        forall|i: int| 0 <= i < s.len() ==> is_ascii_char(#[trigger] s[i]),
    ensures
        forall|i: int|
            0 <= i < lowered(s).len() ==> is_ascii_char(#[trigger] lowered(s)[i]) && lowered(s)[i]
                != ':' && lowered(s)[i] != ' ' && !('A' <= lowered(s)[i] <= 'Z'),
    decreases s.len(),
{
    if s.len() > 0 {
        assert forall|i: int| 0 <= i < s.drop_last().len() implies is_ascii_char(
            #[trigger] s.drop_last()[i],
        ) by {
            assert(s.drop_last()[i] == s[i]);
        }
        lemma_lowered(s.drop_last());
        let rest = lowered(s.drop_last());
        assert forall|i: int| 0 <= i < lowered(s).len() implies is_ascii_char(
            #[trigger] lowered(s)[i],
        ) && lowered(s)[i] != ':' && lowered(s)[i] != ' ' && !('A' <= lowered(s)[i] <= 'Z') by {
            if i < rest.len() {
                assert(lowered(s)[i] == rest[i]);
            } else {
                assert(is_ascii_char(s[s.len() - 1]));
            }
        }
    }
}

proof fn lemma_lowered_fixed(s: Seq<char>)
    requires
        forall|i: int|
            0 <= i < s.len() ==> is_ascii_char(#[trigger] s[i]) && s[i] != ':' && s[i] != ' ' && !(
            'A' <= s[i] <= 'Z'),
    ensures
        lowered(s) == s,
    decreases s.len(),
{
    if s.len() > 0 {
        assert forall|i: int| 0 <= i < s.drop_last().len() implies is_ascii_char(
            #[trigger] s.drop_last()[i],
        ) && s.drop_last()[i] != ':' && s.drop_last()[i] != ' ' && !('A' <= s.drop_last()[i]
            <= 'Z') by {
            assert(s.drop_last()[i] == s[i]);
        }
        lemma_lowered_fixed(s.drop_last());
        assert(is_ascii_char(s[s.len() - 1]));
        assert(s.drop_last() + seq![s.last()] =~= s);
    } else {
        assert(lowered(s) =~= s);
    }
}

/// A normalized ASCII host id holds neither colons nor blanks nor upper-case letters.
pub proof fn normalized_id_is_plain(s: Seq<char>)
    requires
        forall|i: int| 0 <= i < trimmed(s).len() ==> is_ascii_char(#[trigger] trimmed(s)[i]),
    ensures
        forall|i: int|
            0 <= i < normalized_id(s).len() ==> normalized_id(s)[i] != ':' && normalized_id(s)[i]
                != ' ' && !('A' <= #[trigger] normalized_id(s)[i] <= 'Z'),
{
    lemma_lowered(trimmed(s));
}

/// Normalizing an ASCII host id twice is normalizing it once, unless dropping colons and blanks
/// brings other white space to an end of it.
pub proof fn normalizing_twice_changes_nothing(s: Seq<char>)
    requires
        forall|i: int| 0 <= i < trimmed(s).len() ==> is_ascii_char(#[trigger] trimmed(s)[i]),
        normalized_id(s).len() > 0 ==> !is_space(normalized_id(s)[0]) && !is_space(
            normalized_id(s).last(),
        ),
    ensures
        normalized_id(normalized_id(s)) == normalized_id(s),
{
    lemma_lowered(trimmed(s));
    lemma_trimmed_fixed(normalized_id(s));
    lemma_lowered_fixed(normalized_id(s));
}

// --- the resolver -----------------------------------------------------------

/// Resolved host id.
#[derive(Debug)]
pub struct ResolvedHostId {
    /// Source kind.
    pub source_kind: HostIdSourceKind,
    /// Raw value.
    pub raw: String,
    /// Normalized value.
    pub normalized: String,
    /// SHA-256 of the normalized value, in hexadecimal.
    pub hash_hex: String,
}

/// How many bytes a hash prefix has: eight, or all there are.
pub open spec fn prefix_len(s: Seq<char>) -> int {
    if encode_utf8(s).len() < 8 {
        encode_utf8(s).len() as int
    } else {
        8
    }
}

impl ResolvedHostId {
    /// The first eight bytes of the hash, for a small screen.
    pub fn hash_prefix(&self) -> (r: &str)
        requires
            is_char_boundary(encode_utf8(self.hash_hex@), prefix_len(self.hash_hex@)),
        ensures
            encode_utf8(r@) == encode_utf8(self.hash_hex@).take(prefix_len(self.hash_hex@)),
    {
        let s = self.hash_hex.as_str();
        let total: usize = s.as_bytes().len();
        let n: usize = if total < 8 {
            total
        } else {
            8
        };
        let (head, _) = s.split_at(n);
        assert(encode_utf8(head@) =~= encode_utf8(self.hash_hex@).take(n as int));
        head
    }
}

/// Outcome of one source.
#[derive(Debug)]
pub struct ProbeResult {
    /// The source.
    pub source: HostIdSourceKind,
    /// The identity, or why there is none.
    pub outcome: Result<ResolvedHostId, String>,
}

/// One of the sources.
#[derive(Debug)]
pub enum HostSource {
    /// `/etc/machine-id`.
    MachineId(MachineIdSource),
    /// DMI board serial.
    DmiBoardSerial(DmiBoardSerialSource),
    /// DMI system UUID.
    DmiSystemUuid(DmiSystemUuidSource),
    /// DMI system serial.
    DmiSystemSerial(DmiSystemSerialSource),
    /// Hostname.
    Hostname(HostnameSource),
    /// Custom command.
    CustomCommand(CustomCommandSource),
}

impl HostSource {
    /// Source kind.
    pub open spec fn source_kind(&self) -> HostIdSourceKind {
        match self {
            HostSource::MachineId(_) => HostIdSourceKind::MachineId,
            HostSource::DmiBoardSerial(_) => HostIdSourceKind::DmiBoardSerial,
            HostSource::DmiSystemUuid(_) => HostIdSourceKind::DmiSystemUuid,
            HostSource::DmiSystemSerial(_) => HostIdSourceKind::DmiSystemSerial,
            HostSource::Hostname(_) => HostIdSourceKind::Hostname,
            HostSource::CustomCommand(_) => HostIdSourceKind::CustomCommand,
        }
    }

    /// Below the root, the file that holds the value; `None` for a command.
    pub open spec fn file(&self) -> Option<Seq<char>> {
        match self {
            HostSource::MachineId(_) => Some("etc/machine-id"@),
            HostSource::DmiBoardSerial(_) => Some("sys/class/dmi/id/board_serial"@),
            HostSource::DmiSystemUuid(_) => Some("sys/class/dmi/id/product_uuid"@),
            HostSource::DmiSystemSerial(_) => Some("sys/class/dmi/id/product_serial"@),
            HostSource::Hostname(_) => Some("etc/hostname"@),
            HostSource::CustomCommand(_) => None,
        }
    }

    /// Whether a request is that of the source.
    pub open spec fn is_request(&self, fs_root: Seq<char>, r: SourceRequest) -> bool {
        match self {
            HostSource::CustomCommand(c) => r == SourceRequest::RunCommand(c.cmd, c.timeout),
            _ => r matches SourceRequest::ReadFile(p) && p@ == joined(fs_root, self.file()->0),
        }
    }

    /// Whether a result is the value in what was fetched for the source. A reply of the wrong kind
    /// has none.
    pub open spec fn is_value(
        &self,
        fs_root: Seq<char>,
        reply: SourceReply,
        r: Result<String, HostIdentityError>,
    ) -> bool {
        match (self, reply) {
            (HostSource::CustomCommand(c), SourceReply::Command(end)) => is_command_value(
                c.cmd@,
                end,
                r,
            ),
            (HostSource::CustomCommand(_), SourceReply::File(_)) => r
                matches Err(HostIdentityError::CommandNotConfigured),
            (_, SourceReply::File(read)) => is_file_value(
                self.source_kind(),
                joined(fs_root, self.file()->0),
                !(self is MachineId),
                read,
                r,
            ),
            (_, SourceReply::Command(_)) => r matches Err(HostIdentityError::CommandNotConfigured),
        }
    }
}

impl HostIdSource for HostSource {
    fn kind(&self) -> (r: HostIdSourceKind)
        ensures
            r == self.source_kind(),
    {
        match self {
            HostSource::MachineId(s) => s.kind(),
            HostSource::DmiBoardSerial(s) => s.kind(),
            HostSource::DmiSystemUuid(s) => s.kind(),
            HostSource::DmiSystemSerial(s) => s.kind(),
            HostSource::Hostname(s) => s.kind(),
            HostSource::CustomCommand(s) => s.kind(),
        }
    }

    fn request(&self, fs_root: &str) -> (r: SourceRequest)
        ensures
            self.is_request(fs_root@, r),
    {
        match self {
            HostSource::MachineId(s) => s.request(fs_root),
            HostSource::DmiBoardSerial(s) => s.request(fs_root),
            HostSource::DmiSystemUuid(s) => s.request(fs_root),
            HostSource::DmiSystemSerial(s) => s.request(fs_root),
            HostSource::Hostname(s) => s.request(fs_root),
            HostSource::CustomCommand(s) => s.request(fs_root),
        }
    }

    fn value(&self, fs_root: &str, reply: SourceReply) -> (r: Result<String, HostIdentityError>)
        ensures
            self.is_value(fs_root@, reply, r),
    {
        match self {
            HostSource::MachineId(s) => s.value(fs_root, reply),
            HostSource::DmiBoardSerial(s) => s.value(fs_root, reply),
            HostSource::DmiSystemUuid(s) => s.value(fs_root, reply),
            HostSource::DmiSystemSerial(s) => s.value(fs_root, reply),
            HostSource::Hostname(s) => s.value(fs_root, reply),
            HostSource::CustomCommand(s) => s.value(fs_root, reply),
        }
    }
}

/// Resolver.
#[derive(Debug)]
pub struct HostIdentityResolver {
    /// The sources, in order.
    pub sources: Vec<HostSource>,
    /// What to do where none works.
    pub fallback: HostIdFallback,
    /// Root of the file system.
    pub fs_root: String,
}

/// The source of a kind: none for a command that is not configured, nor for the override.
pub open spec fn source_for(kind: HostIdSourceKind, cfg: HostIdentitySection) -> Option<HostSource> {
    match kind {
        HostIdSourceKind::MachineId => Some(HostSource::MachineId(MachineIdSource)),
        HostIdSourceKind::DmiBoardSerial => Some(HostSource::DmiBoardSerial(DmiBoardSerialSource)),
        HostIdSourceKind::DmiSystemUuid => Some(HostSource::DmiSystemUuid(DmiSystemUuidSource)),
        HostIdSourceKind::DmiSystemSerial => Some(
            HostSource::DmiSystemSerial(DmiSystemSerialSource),
        ),
        HostIdSourceKind::Hostname => Some(HostSource::Hostname(HostnameSource)),
        HostIdSourceKind::CustomCommand => match cfg.custom_command {
            Some(cmd) => Some(
                HostSource::CustomCommand(
                    CustomCommandSource { cmd, timeout: cfg.custom_command_timeout },
                ),
            ),
            None => None,
        },
        HostIdSourceKind::Override => None,
    }
}

/// The sources of a configuration, in its order.
pub open spec fn sources_for(kinds: Seq<HostIdSourceKind>, cfg: HostIdentitySection) -> Seq<
    HostSource,
>
    decreases kinds.len(),
{
    if kinds.len() == 0 {
        Seq::empty()
    } else {
        let rest = sources_for(kinds.drop_last(), cfg);
        match source_for(kinds.last(), cfg) {
            Some(s) => rest.push(s),
            None => rest,
        }
    }
}

/// Why a value is no identity.
pub open spec fn value_refusal(value: Result<String, HostIdentityError>) -> Option<Seq<char>> {
    match value {
        Err(e) => Some(e.message_text()),
        Ok(raw) => if normalized_id(raw@).len() == 0 {
            Some("empty after normalization"@)
        } else {
            None
        },
    }
}

/// Whether an identity is that of a raw value.
pub open spec fn is_resolved(r: ResolvedHostId, kind: HostIdSourceKind, raw: Seq<char>) -> bool {
    &&& r.source_kind == kind
    &&& r.raw@ == raw
    &&& r.normalized@ == normalized_id(raw)
    &&& r.hash_hex@ == hash_text(r.normalized@)
}

/// Whether an outcome is that of a source.
pub open spec fn is_outcome(
    kind: HostIdSourceKind,
    value: Result<String, HostIdentityError>,
    o: Result<ResolvedHostId, String>,
) -> bool {
    match o {
        Ok(r) => value_refusal(value) is None && (value matches Ok(raw) && is_resolved(
            r,
            kind,
            raw@,
        )),
        Err(why) => value_refusal(value) == Some(why@),
    }
}

/// Whether an outcome is that of a source for a reply.
pub open spec fn outcome_for(
    s: HostSource,
    fs_root: Seq<char>,
    reply: SourceReply,
    o: Result<ResolvedHostId, String>,
) -> bool {
    exists|v: Result<String, HostIdentityError>| #[trigger]
        s.is_value(fs_root, reply, v) && is_outcome(s.source_kind(), v, o)
}

/// Whether `o` is the outcomes of the sources for the replies, in order.
pub open spec fn outcomes_for(
    sources: Seq<HostSource>,
    fs_root: Seq<char>,
    replies: Seq<SourceReply>,
    o: Seq<Result<ResolvedHostId, String>>,
) -> bool {
    &&& o.len() <= sources.len() && o.len() <= replies.len()
    &&& forall|i: int|
        0 <= i < o.len() ==> outcome_for(sources[i], fs_root, replies[i], #[trigger] o[i])
}

/// The identity where no source works and the fallback lets that pass.
pub open spec fn is_unknown(r: ResolvedHostId) -> bool {
    &&& r.source_kind == HostIdSourceKind::Override
    &&& r.raw@ == "unknown"@
    &&& r.normalized@ == "unknown"@
    &&& r.hash_hex@ == hash_text("unknown"@)
}

/// Whether attempts are the failed outcomes, with the kinds of their sources.
pub open spec fn are_attempts(
    sources: Seq<HostSource>,
    o: Seq<Result<ResolvedHostId, String>>,
    attempts: Seq<(HostIdSourceKind, String)>,
) -> bool {
    &&& attempts.len() == o.len()
    &&& forall|i: int|
        0 <= i < o.len() ==> (#[trigger] attempts[i]).0 == sources[i].source_kind() && o[i] == Err::<
            ResolvedHostId,
            String,
        >(attempts[i].1)
}

/// Whether a result is the resolution: the first outcome that works, or the fallback.
pub open spec fn is_resolution(
    sources: Seq<HostSource>,
    fallback: HostIdFallback,
    o: Seq<Result<ResolvedHostId, String>>,
    r: Result<ResolvedHostId, HostIdentityError>,
) -> bool {
    if o.len() > 0 && o.last() is Ok {
        &&& forall|i: int| 0 <= i < o.len() - 1 ==> (#[trigger] o[i]) is Err
        &&& r == Ok::<ResolvedHostId, HostIdentityError>(o.last()->Ok_0)
    } else {
        &&& o.len() == sources.len()
        &&& forall|i: int| 0 <= i < o.len() ==> (#[trigger] o[i]) is Err
        &&& if fallback == HostIdFallback::Deny {
            r matches Err(HostIdentityError::AllSourcesFailed { attempts }) && are_attempts(
                sources,
                o,
                attempts@,
            )
        } else {
            r matches Ok(u) && is_unknown(u)
        }
    }
}

fn resolved(source_kind: HostIdSourceKind, raw: String, normalized: String) -> (r: ResolvedHostId)
    ensures
        r.source_kind == source_kind,
        r.raw == raw,
        r.normalized == normalized,
        r.hash_hex@ == hash_text(normalized@),
{
    let hash_hex = sha256_hex(normalized.as_str());
    ResolvedHostId { source_kind, raw, normalized, hash_hex }
}

/// A resolution under way.
#[derive(Debug)]
pub struct Resolution {
    attempts: Vec<(HostIdSourceKind, String)>,
}

/// What a resolution needs next, or has come to.
#[derive(Debug)]
pub enum ResolveStep {
    /// The reply to this request.
    Fetch(Resolution, SourceRequest),
    /// Nothing.
    Done(Result<ResolvedHostId, HostIdentityError>),
}

/// Name of a fallback.
pub open spec fn fallback_variant(f: HostIdFallback) -> Seq<char> {
    match f {
        HostIdFallback::Deny => "Deny"@,
        HostIdFallback::Warn => "Warn"@,
        HostIdFallback::Allow => "Allow"@,
    }
}

/// The event of an identity that was resolved: which source it came from, or which fallback let
/// the host be unknown. No source is of the kind of that.
pub open spec fn resolved_event(r: ResolvedHostId, fallback: HostIdFallback) -> EventModel {
    let e = with_text(
        with_text(
            with_text(
                bare_event("tessera.host_identity"@, AuditLevel::Info, ""@),
                "source"@,
                r.source_kind.variant(),
            ),
            "raw"@,
            r.raw@,
        ),
        "host_id_hash"@,
        r.hash_hex@,
    );
    if r.source_kind == HostIdSourceKind::Override {
        with_text(
            with_text(e, "fallback"@, fallback_variant(fallback)),
            "message"@,
            "host_id fallback to unknown"@,
        )
    } else {
        with_text(e, "message"@, "host_id resolved"@)
    }
}

impl ResolvedHostId {
    /// The event of the identity, resolved under a fallback.
    pub fn event(&self, fallback: HostIdFallback) -> (r: AuditEvent)
        ensures
            r@ == resolved_event(*self, fallback),
    {
        let e = AuditEvent::new("tessera.host_identity", AuditLevel::Info, "");
        let e = e.text("source", self.source_kind.variant_name()).text("raw", self.raw.as_str());
        let e = e.text("host_id_hash", self.hash_hex.as_str());
        match self.source_kind {
            HostIdSourceKind::Override => {
                let name = match fallback {
                    HostIdFallback::Deny => "Deny",
                    HostIdFallback::Warn => "Warn",
                    HostIdFallback::Allow => "Allow",
                };
                e.text("fallback", name).text("message", "host_id fallback to unknown")
            },
            _ => e.text("message", "host_id resolved"),
        }
    }
}

impl Resolution {
    /// The sources that failed so far.
    pub closed spec fn failed(&self) -> Seq<(HostIdSourceKind, String)> {
        self.attempts@
    }
}

/// Whether a result is what is left when every source failed.
pub open spec fn is_fallback(
    fallback: HostIdFallback,
    failed: Seq<(HostIdSourceKind, String)>,
    r: Result<ResolvedHostId, HostIdentityError>,
) -> bool {
    if fallback == HostIdFallback::Deny {
        r matches Err(HostIdentityError::AllSourcesFailed { attempts }) && attempts@ == failed
    } else {
        r matches Ok(u) && is_unknown(u)
    }
}

/// Whether a step is that after the given failures: the next source, or the fallback.
pub open spec fn is_next_step(
    resolver: HostIdentityResolver,
    failed: Seq<(HostIdSourceKind, String)>,
    step: ResolveStep,
) -> bool {
    if failed.len() < resolver.sources@.len() {
        step matches ResolveStep::Fetch(w, q) && w.failed() == failed
            && resolver.sources@[failed.len() as int].is_request(resolver.fs_root@, q)
    } else {
        step matches ResolveStep::Done(d) && is_fallback(resolver.fallback, failed, d)
    }
}

impl HostIdentityResolver {
    /// Builds a resolver from a validated configuration.
    pub fn from_validated(cfg: &HostIdentitySection, fs_root: String) -> (r: HostIdentityResolver)
        ensures
            r.sources@ == sources_for(cfg.sources@, *cfg),
            r.fallback == cfg.fallback,
            r.fs_root == fs_root,
    {
        let mut sources: Vec<HostSource> = Vec::new();
        let mut i: usize = 0;
        assert(cfg.sources@.take(0) =~= Seq::<HostIdSourceKind>::empty());
        while i < cfg.sources.len()
            invariant
                i <= cfg.sources@.len(),
                sources@ == sources_for(cfg.sources@.take(i as int), *cfg),
            decreases cfg.sources@.len() - i,
        {
            assert(cfg.sources@.take(i + 1).drop_last() =~= cfg.sources@.take(i as int));
            match cfg.sources[i] {
                HostIdSourceKind::MachineId => {
                    sources.push(HostSource::MachineId(MachineIdSource));
                },
                HostIdSourceKind::DmiBoardSerial => {
                    sources.push(HostSource::DmiBoardSerial(DmiBoardSerialSource));
                },
                HostIdSourceKind::DmiSystemUuid => {
                    sources.push(HostSource::DmiSystemUuid(DmiSystemUuidSource));
                },
                HostIdSourceKind::DmiSystemSerial => {
                    sources.push(HostSource::DmiSystemSerial(DmiSystemSerialSource));
                },
                HostIdSourceKind::Hostname => {
                    sources.push(HostSource::Hostname(HostnameSource));
                },
                HostIdSourceKind::CustomCommand => {
                    if let Some(cmd) = &cfg.custom_command {
                        sources.push(
                            HostSource::CustomCommand(
                                CustomCommandSource::new(cmd.clone(), cfg.custom_command_timeout),
                            ),
                        );
                    }
                },
                HostIdSourceKind::Override => {},
            }
            i = i + 1;
        }
        assert(cfg.sources@.take(cfg.sources@.len() as int) =~= cfg.sources@);
        HostIdentityResolver { sources, fallback: cfg.fallback, fs_root }
    }

    fn outcome(&self, i: usize, reply: SourceReply) -> (r: Result<ResolvedHostId, String>)
        requires
            i < self.sources@.len(),
        ensures
            outcome_for(self.sources@[i as int], self.fs_root@, reply, r),
    {
        let kind = self.sources[i].kind();
        let value = self.sources[i].value(self.fs_root.as_str(), reply);
        let ghost v = value;
        let r = match value {
            Ok(raw) => {
                let normalized = normalize_host_id(raw.as_str());
                if normalized.as_str().is_empty() {
                    Err("empty after normalization".to_owned())
                } else {
                    Ok(resolved(kind, raw, normalized))
                }
            },
            Err(e) => Err(e.message()),
        };
        assert(self.sources@[i as int].is_value(self.fs_root@, reply, v));
        assert(is_outcome(kind, v, r));
        r
    }

    /// The outcome of every source, from the replies to their requests. It does not influence which
    /// one [`Self::resolve`] takes.
    pub fn probe_all(&self, replies: Vec<SourceReply>) -> (r: Vec<ProbeResult>)
        requires
            replies@.len() == self.sources@.len(),
        ensures
            r@.len() == self.sources@.len(),
            forall|i: int|
                0 <= i < r@.len() ==> (#[trigger] r@[i]).source == self.sources@[i].source_kind()
                    && outcome_for(self.sources@[i], self.fs_root@, replies@[i], r@[i].outcome),
    {
        let mut out: Vec<ProbeResult> = Vec::new();
        let mut rest = replies;
        let mut i: usize = 0;
        while i < self.sources.len()
            invariant
                i <= self.sources@.len(),
                out@.len() == i,
                rest@ == replies@.skip(i as int),
                replies@.len() == self.sources@.len(),
                forall|k: int|
                    0 <= k < i ==> (#[trigger] out@[k]).source == self.sources@[k].source_kind()
                        && outcome_for(
                        self.sources@[k],
                        self.fs_root@,
                        replies@[k],
                        out@[k].outcome,
                    ),
            decreases self.sources@.len() - i,
        {
            let reply = rest.remove(0);
            assert(rest@ =~= replies@.skip(i + 1));
            let outcome = self.outcome(i, reply);
            out.push(ProbeResult { source: self.sources[i].kind(), outcome });
            i = i + 1;
        }
        out
    }

    /// What every source needs fetched, in order.
    pub fn requests(&self) -> (r: Vec<SourceRequest>)
        ensures
            r@.len() == self.sources@.len(),
            forall|i: int|
                0 <= i < r@.len() ==> self.sources@[i].is_request(self.fs_root@, #[trigger] r@[i]),
    {
        let mut out: Vec<SourceRequest> = Vec::new();
        let mut i: usize = 0;
        while i < self.sources.len()
            invariant
                i <= self.sources@.len(),
                out@.len() == i,
                forall|k: int|
                    0 <= k < i ==> self.sources@[k].is_request(self.fs_root@, #[trigger] out@[k]),
            decreases self.sources@.len() - i,
        {
            out.push(self.sources[i].request(self.fs_root.as_str()));
            i = i + 1;
        }
        out
    }

    fn give_up(&self, attempts: Vec<(HostIdSourceKind, String)>) -> (r: Result<
        ResolvedHostId,
        HostIdentityError,
    >)
        ensures
            is_fallback(self.fallback, attempts@, r),
    {
        match self.fallback {
            HostIdFallback::Deny => Err(HostIdentityError::AllSourcesFailed { attempts }),
            HostIdFallback::Warn | HostIdFallback::Allow => Ok(
                resolved(
                    HostIdSourceKind::Override,
                    "unknown".to_owned(),
                    "unknown".to_owned(),
                ),
            ),
        }
    }

    fn ask(&self, attempts: Vec<(HostIdSourceKind, String)>) -> (r: ResolveStep)
        ensures
            is_next_step(*self, attempts@, r),
    {
        let n: usize = attempts.len();
        if n < self.sources.len() {
            let q = self.sources[n].request(self.fs_root.as_str());
            ResolveStep::Fetch(Resolution { attempts }, q)
        } else {
            ResolveStep::Done(self.give_up(attempts))
        }
    }

    /// Begins a resolution. Only what it asks for need be fetched.
    pub fn begin(&self) -> (r: ResolveStep)
        ensures
            is_next_step(*self, Seq::empty(), r),
    {
        let attempts: Vec<(HostIdSourceKind, String)> = Vec::new();
        self.ask(attempts)
    }

    /// Takes in the reply to the request of a resolution.
    pub fn step(&self, walk: Resolution, reply: SourceReply) -> (r: ResolveStep)
        requires
            walk.failed().len() < self.sources@.len(),
        ensures
            exists|o: Result<ResolvedHostId, String>| #[trigger]
                outcome_for(
                    self.sources@[walk.failed().len() as int],
                    self.fs_root@,
                    reply,
                    o,
                ) && match o {
                    Ok(id) => r == ResolveStep::Done(Ok(id)),
                    Err(why) => is_next_step(
                        *self,
                        walk.failed().push(
                            (self.sources@[walk.failed().len() as int].source_kind(), why),
                        ),
                        r,
                    ),
                },
    {
        let n: usize = walk.attempts.len();
        let o = self.outcome(n, reply);
        let ghost seen = o;
        assert(outcome_for(self.sources@[n as int], self.fs_root@, reply, seen));
        match o {
            Ok(id) => ResolveStep::Done(Ok(id)),
            Err(why) => {
                let mut attempts = walk.attempts;
                attempts.push((self.sources[n].kind(), why));
                self.ask(attempts)
            },
        }
    }

    /// Resolves the first source that works, from the replies to the requests of all.
    pub fn resolve(&self, replies: Vec<SourceReply>) -> (r: Result<
        ResolvedHostId,
        HostIdentityError,
    >)
        requires
            replies@.len() == self.sources@.len(),
        ensures
            exists|o: Seq<Result<ResolvedHostId, String>>|
                outcomes_for(self.sources@, self.fs_root@, replies@, o) && #[trigger] is_resolution(
                    self.sources@,
                    self.fallback,
                    o,
                    r,
                ),
    {
        let mut rest = replies;
        let ghost mut o: Seq<Result<ResolvedHostId, String>> = Seq::empty();
        let mut attempts: Vec<(HostIdSourceKind, String)> = Vec::new();
        let mut i: usize = 0;
        while i < self.sources.len()
            invariant
                i <= self.sources@.len(),
                rest@ == replies@.skip(i as int),
                replies@.len() == self.sources@.len(),
                o.len() == i,
                outcomes_for(self.sources@, self.fs_root@, replies@, o),
                are_attempts(self.sources@, o, attempts@),
                forall|k: int| 0 <= k < o.len() ==> (#[trigger] o[k]) is Err,
            decreases self.sources@.len() - i,
        {
            let reply = rest.remove(0);
            assert(rest@ =~= replies@.skip(i + 1));
            let out = self.outcome(i, reply);
            let ghost grown = o.push(out);
            assert(outcomes_for(self.sources@, self.fs_root@, replies@, grown));
            match out {
                Ok(id) => {
                    assert(is_resolution(
                        self.sources@,
                        self.fallback,
                        grown,
                        Ok::<ResolvedHostId, HostIdentityError>(id),
                    ));
                    return Ok(id);
                },
                Err(why) => {
                    attempts.push((self.sources[i].kind(), why));
                    proof {
                        o = grown;
                    }
                },
            }
            i = i + 1;
        }
        let r = self.give_up(attempts);
        assert(is_resolution(self.sources@, self.fallback, o, r));
        r
    }
}

/// Normalizing goes character by character: colons and blanks are dropped, ASCII capitals become
/// small, and any other ASCII character stays.
pub proof fn normalizing_goes_by_character(s: Seq<char>, c: char)
    ensures
        lowered(Seq::<char>::empty()).len() == 0,
        c == ':' || c == ' ' ==> lowered(s.push(c)) == lowered(s),
        c != ':' && c != ' ' && c <= '\u{7f}' && !('A' <= c <= 'Z') ==> lowered(s.push(c)) == lowered(
            s,
        ).push(c),
        'A' <= c <= 'Z' ==> lowered(s.push(c)).len() == lowered(s).len() + 1 && lowered(
            s.push(c),
        ).drop_last() == lowered(s) && lowered(s.push(c)).last() as u32 == c as u32 + 32,
        c > '\u{7f}' ==> lowered(s.push(c)) == lowered(s) + unicode_lower(c),
{
    assert(s.push(c).drop_last() =~= s);
    assert(lowered(s) + seq![lower_char(c)] =~= lowered(s).push(lower_char(c)));
    assert(lowered(s).push(lower_char(c)).drop_last() =~= lowered(s));
}

/// The identity that counts is what is left of the raw value once it is trimmed and normalized, and
/// its hash is that of the normalized text.
pub proof fn identity_is_hashed_normalized(r: ResolvedHostId, kind: HostIdSourceKind, raw: Seq<char>)
    requires
        is_resolved(r, kind, raw),
    ensures
        r.source_kind == kind,
        r.raw@ == raw,
        r.normalized@ == lowered(trimmed(raw)),
        r.hash_hex@ == hex_text(sha256(encode_utf8(lowered(trimmed(raw))))),
{
}

/// The sources are asked in the order of the configuration, each kind by its own source; a command
/// only where one is configured, and an override by none.
pub proof fn sources_follow_the_configuration(
    kinds: Seq<HostIdSourceKind>,
    kind: HostIdSourceKind,
    cfg: HostIdentitySection,
)
    ensures
        sources_for(Seq::<HostIdSourceKind>::empty(), cfg).len() == 0,
        ({
            let skipped = kind == HostIdSourceKind::Override || (kind
                == HostIdSourceKind::CustomCommand && cfg.custom_command is None);
            let more = sources_for(kinds.push(kind), cfg);
            let before = sources_for(kinds, cfg);
            &&& skipped ==> more == before
            &&& !skipped ==> more.len() == before.len() + 1 && more.drop_last() == before
                && more.last().source_kind() == kind && (more.last() matches HostSource::CustomCommand(
                c,
            ) ==> cfg.custom_command == Some(c.cmd) && c.timeout == cfg.custom_command_timeout)
        }),
{
    assert(kinds.push(kind).drop_last() =~= kinds);
    let before = sources_for(kinds, cfg);
    if source_for(kind, cfg) is Some {
        assert(before.push(source_for(kind, cfg)->0).drop_last() =~= before);
    }
}

/// Each source reads its own file below the root, or runs its own command.
pub proof fn sources_read_their_own_file(s: HostSource, root: Seq<char>, r: SourceRequest)
    requires
        s.is_request(root, r),
    ensures
        s.source_kind() == HostIdSourceKind::MachineId ==> r is ReadFile && r->ReadFile_0@ == joined(
            root,
            "etc/machine-id"@,
        ),
        s.source_kind() == HostIdSourceKind::Hostname ==> r is ReadFile && r->ReadFile_0@ == joined(
            root,
            "etc/hostname"@,
        ),
        s.source_kind() == HostIdSourceKind::DmiBoardSerial ==> r is ReadFile && r->ReadFile_0@
            == joined(root, "sys/class/dmi/id/board_serial"@),
        s.source_kind() == HostIdSourceKind::DmiSystemUuid ==> r is ReadFile && r->ReadFile_0@
            == joined(root, "sys/class/dmi/id/product_uuid"@),
        s.source_kind() == HostIdSourceKind::DmiSystemSerial ==> r is ReadFile && r->ReadFile_0@
            == joined(root, "sys/class/dmi/id/product_serial"@),
        s matches HostSource::CustomCommand(c) ==> r == SourceRequest::RunCommand(c.cmd, c.timeout),
        s.source_kind() != HostIdSourceKind::Override,
{
}

/// The first source that gives an identity decides: it is the result, and every source before it
/// gave none.
pub proof fn first_working_source_decides(
    sources: Seq<HostSource>,
    fallback: HostIdFallback,
    o: Seq<Result<ResolvedHostId, String>>,
    r: Result<ResolvedHostId, HostIdentityError>,
    i: int,
)
    requires
        is_resolution(sources, fallback, o, r),
        o.len() <= sources.len(),
        0 <= i < o.len(),
        o[i] is Ok,
    ensures
        i == o.len() - 1,
        r == Ok::<ResolvedHostId, HostIdentityError>(o[i]->Ok_0),
        forall|j: int| 0 <= j < i ==> (#[trigger] o[j]) is Err,
{
    if i < o.len() - 1 {
        assert(!(o[i] is Err));
    }
}

/// Where no source gives an identity, every one was asked: a configuration that denies such a host
/// gets every failure in order, and any other the unknown host.
pub proof fn without_a_source_the_fallback_decides(
    sources: Seq<HostSource>,
    fallback: HostIdFallback,
    o: Seq<Result<ResolvedHostId, String>>,
    r: Result<ResolvedHostId, HostIdentityError>,
    i: int,
)
    requires
        is_resolution(sources, fallback, o, r),
        forall|j: int| 0 <= j < o.len() ==> (#[trigger] o[j]) is Err,
    ensures
        o.len() == sources.len(),
        fallback == HostIdFallback::Deny ==> (r matches Err(
            HostIdentityError::AllSourcesFailed { attempts },
        ) && attempts@.len() == sources.len() && (0 <= i < sources.len() ==> attempts@[i].0
            == sources[i].source_kind() && o[i] == Err::<ResolvedHostId, String>(attempts@[i].1))),
        fallback != HostIdFallback::Deny ==> (r matches Ok(u) && u.raw@ == "unknown"@
            && u.normalized@ == "unknown"@ && u.source_kind == HostIdSourceKind::Override
            && u.hash_hex@ == hex_text(sha256(encode_utf8("unknown"@)))),
{
    if o.len() > 0 {
        assert(o[o.len() - 1] is Err);
    }
}

/// A value is an identity unless it is an error or nothing is left of it.
pub proof fn empty_values_are_no_identity(
    kind: HostIdSourceKind,
    value: Result<String, HostIdentityError>,
    o: Result<ResolvedHostId, String>,
)
    requires
        is_outcome(kind, value, o),
    ensures
        o is Ok <==> value is Ok && lowered(trimmed(value->Ok_0@)).len() > 0,
        o matches Ok(r) ==> r.source_kind == kind && r.raw@ == value->Ok_0@,
        value matches Err(e) ==> (o matches Err(why) && why@ == e.message_text()),
        value is Ok && o is Err ==> o->Err_0@ == "empty after normalization"@,
{
}

/// The next source is asked only while every one before it failed, and then the fallback is left.
pub proof fn sources_are_asked_one_by_one(
    resolver: HostIdentityResolver,
    failed: Seq<(HostIdSourceKind, String)>,
    step: ResolveStep,
)
    requires
        is_next_step(resolver, failed, step),
    ensures
        step is Fetch <==> failed.len() < resolver.sources@.len(),
        step matches ResolveStep::Fetch(w, q) ==> w.failed() == failed
            && resolver.sources@[failed.len() as int].is_request(resolver.fs_root@, q),
        step matches ResolveStep::Done(Err(HostIdentityError::AllSourcesFailed { attempts }))
            ==> attempts@ == failed,
        step matches ResolveStep::Done(Ok(_)) ==> resolver.fallback != HostIdFallback::Deny,
{
}

/// The event of an identity carries where it came from, the raw value and the hash.
pub proof fn identity_event_says_where_from(r: ResolvedHostId, fallback: HostIdFallback)
    ensures
        resolved_event(r, fallback).level == AuditLevel::Info,
        resolved_event(r, fallback).fields[0] == ("source"@, ValueModel::Text(
            r.source_kind.variant(),
        )),
        resolved_event(r, fallback).fields[1] == ("raw"@, ValueModel::Text(r.raw@)),
        resolved_event(r, fallback).fields[2] == ("host_id_hash"@, ValueModel::Text(r.hash_hex@)),
        r.source_kind == HostIdSourceKind::Override <==> resolved_event(r, fallback).fields.len()
            == 5,
{
}

/// A prefix has eight bytes, or as many as there are.
pub proof fn prefix_has_eight_bytes(s: Seq<char>)
    ensures
        encode_utf8(s).len() >= 8 ==> prefix_len(s) == 8,
        encode_utf8(s).len() < 8 ==> prefix_len(s) == encode_utf8(s).len(),
{
}

} // verus!
