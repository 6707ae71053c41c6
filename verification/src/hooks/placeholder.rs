//! Hook placeholder templates.

use crate::error::Error;
use crate::text::{cat2, char_at, chars_of, str_eq, string_of};
use vstd::prelude::*;
use vstd::string::*;

verus! {

/// Placeholder variable.
#[derive(Debug, Clone, Copy, PartialEq, Eq, PartialOrd, Ord, Structural)]
pub enum PlaceholderVar {
    /// PAM user.
    PamUser,
    /// PAM service.
    PamService,
    /// Host id.
    HostId,
    /// Host id hash.
    HostIdHash,
    /// Host id source.
    HostIdSource,
    /// Certificate CN.
    CertCn,
    /// Certificate serial.
    CertSerial,
    /// USB serial.
    UsbSerial,
    /// USB VID/PID.
    UsbVidPid,
    /// Session id.
    SessionId,
}

/// The variable that a placeholder name selects.
pub open spec fn var_named(s: Seq<char>) -> Option<PlaceholderVar> {
    if s == "pam_user"@ {
        Some(PlaceholderVar::PamUser)
    } else if s == "pam_service"@ {
        Some(PlaceholderVar::PamService)
    } else if s == "host_id"@ {
        Some(PlaceholderVar::HostId)
    } else if s == "host_id_hash"@ {
        Some(PlaceholderVar::HostIdHash)
    } else if s == "host_id_source"@ {
        Some(PlaceholderVar::HostIdSource)
    } else if s == "cert_cn"@ {
        Some(PlaceholderVar::CertCn)
    } else if s == "cert_serial"@ {
        Some(PlaceholderVar::CertSerial)
    } else if s == "usb_serial"@ {
        Some(PlaceholderVar::UsbSerial)
    } else if s == "usb_vid_pid"@ {
        Some(PlaceholderVar::UsbVidPid)
    } else if s == "session_id"@ {
        Some(PlaceholderVar::SessionId)
    } else {
        None
    }
}

impl PlaceholderVar {
    /// Name of the placeholder in templates.
    pub open spec fn name(self) -> Seq<char> {
        match self {
            PlaceholderVar::PamUser => "pam_user"@,
            PlaceholderVar::PamService => "pam_service"@,
            PlaceholderVar::HostId => "host_id"@,
            PlaceholderVar::HostIdHash => "host_id_hash"@,
            PlaceholderVar::HostIdSource => "host_id_source"@,
            PlaceholderVar::CertCn => "cert_cn"@,
            PlaceholderVar::CertSerial => "cert_serial"@,
            PlaceholderVar::UsbSerial => "usb_serial"@,
            PlaceholderVar::UsbVidPid => "usb_vid_pid"@,
            PlaceholderVar::SessionId => "session_id"@,
        }
    }

    /// Name of the variant, as `Debug` prints it.
    pub open spec fn variant(self) -> Seq<char> {
        match self {
            PlaceholderVar::PamUser => "PamUser"@,
            PlaceholderVar::PamService => "PamService"@,
            PlaceholderVar::HostId => "HostId"@,
            PlaceholderVar::HostIdHash => "HostIdHash"@,
            PlaceholderVar::HostIdSource => "HostIdSource"@,
            PlaceholderVar::CertCn => "CertCn"@,
            PlaceholderVar::CertSerial => "CertSerial"@,
            PlaceholderVar::UsbSerial => "UsbSerial"@,
            PlaceholderVar::UsbVidPid => "UsbVidPid"@,
            PlaceholderVar::SessionId => "SessionId"@,
        }
    }

    /// Name of the variant, as `Debug` prints it.
    pub fn variant_name(self) -> (r: &'static str)
        ensures
            r@ == self.variant(),
    {
        match self {
            PlaceholderVar::PamUser => "PamUser",
            PlaceholderVar::PamService => "PamService",
            PlaceholderVar::HostId => "HostId",
            PlaceholderVar::HostIdHash => "HostIdHash",
            PlaceholderVar::HostIdSource => "HostIdSource",
            PlaceholderVar::CertCn => "CertCn",
            PlaceholderVar::CertSerial => "CertSerial",
            PlaceholderVar::UsbSerial => "UsbSerial",
            PlaceholderVar::UsbVidPid => "UsbVidPid",
            PlaceholderVar::SessionId => "SessionId",
        }
    }

    /// Reads a placeholder name.
    pub fn from_str(s: &str) -> (r: Result<PlaceholderVar, Error>)
        ensures
            r matches Ok(k) ==> var_named(s@) == Some(k),
            r matches Err(e) ==> var_named(s@) is None && e.is_invalid("unknown placeholder: "@ + s@),
    {
        if str_eq(s, "pam_user") {
            Ok(PlaceholderVar::PamUser)
        } else if str_eq(s, "pam_service") {
            Ok(PlaceholderVar::PamService)
        } else if str_eq(s, "host_id") {
            Ok(PlaceholderVar::HostId)
        } else if str_eq(s, "host_id_hash") {
            Ok(PlaceholderVar::HostIdHash)
        } else if str_eq(s, "host_id_source") {
            Ok(PlaceholderVar::HostIdSource)
        } else if str_eq(s, "cert_cn") {
            Ok(PlaceholderVar::CertCn)
        } else if str_eq(s, "cert_serial") {
            Ok(PlaceholderVar::CertSerial)
        } else if str_eq(s, "usb_serial") {
            Ok(PlaceholderVar::UsbSerial)
        } else if str_eq(s, "usb_vid_pid") {
            Ok(PlaceholderVar::UsbVidPid)
        } else if str_eq(s, "session_id") {
            Ok(PlaceholderVar::SessionId)
        } else {
            Err(Error::ConfigInvalid { reason: cat2("unknown placeholder: ", s) })
        }
    }
}

/// The name of every placeholder reads back as that placeholder.
pub proof fn var_name_round_trips(k: PlaceholderVar)
    ensures
        var_named(k.name()) == Some(k),
{
    reveal_strlit("pam_user");
    reveal_strlit("pam_service");
    reveal_strlit("host_id");
    reveal_strlit("host_id_hash");
    reveal_strlit("host_id_source");
    reveal_strlit("cert_cn");
    reveal_strlit("cert_serial");
    reveal_strlit("usb_serial");
    reveal_strlit("usb_vid_pid");
    reveal_strlit("session_id");
    assert("pam_user"@.len() == 8);
    assert("pam_service"@.len() == 11);
    assert("host_id"@.len() == 7);
    assert("host_id_hash"@.len() == 12);
    assert("host_id_source"@.len() == 14);
    assert("cert_cn"@.len() == 7);
    assert("cert_serial"@.len() == 11);
    assert("usb_serial"@.len() == 10);
    assert("usb_vid_pid"@.len() == 11);
    assert("session_id"@.len() == 10);
    assert("pam_service"@[0] == 'p');
    assert("cert_serial"@[0] == 'c');
    assert("usb_vid_pid"@[0] == 'u');
    assert("host_id"@[0] == 'h');
    assert("cert_cn"@[0] == 'c');
    assert("usb_serial"@[0] == 'u');
    assert("session_id"@[0] == 's');
}

/// Template part.
#[derive(Debug, PartialEq, Eq)]
pub enum TemplatePart {
    /// Literal text.
    Literal(String),
    /// Variable.
    Var(PlaceholderVar),
}

/// A template part with its text as a sequence.
pub ghost enum PartModel {
    /// Literal text.
    Literal(Seq<char>),
    /// Variable.
    Var(PlaceholderVar),
}

impl View for TemplatePart {
    type V = PartModel;

    open spec fn view(&self) -> PartModel {
        match self {
            TemplatePart::Literal(s) => PartModel::Literal(s@),
            TemplatePart::Var(v) => PartModel::Var(*v),
        }
    }
}

/// The models of a sequence of parts.
pub open spec fn part_models(parts: Seq<TemplatePart>) -> Seq<PartModel> {
    parts.map_values(|p: TemplatePart| p@)
}

/// What one step through a template's source yields.
pub ghost enum Token {
    /// A character of literal text.
    Char(char),
    /// A placeholder.
    Var(PlaceholderVar),
}

/// Why a template's source is refused.
pub ghost enum TemplateFault {
    /// `${` without a closing brace.
    Unclosed,
    /// `${}`.
    EmptyName,
    /// A name that is no placeholder.
    Unknown(Seq<char>),
}

impl TemplateFault {
    /// The reason given to the user.
    pub open spec fn reason(self) -> Seq<char> {
        match self {
            TemplateFault::Unclosed => "unclosed placeholder"@,
            TemplateFault::EmptyName => "empty placeholder"@,
            TemplateFault::Unknown(name) => "unknown placeholder: "@ + name,
        }
    }
}

/// Position of the first closing brace, or the length when there is none.
pub open spec fn brace_end(s: Seq<char>) -> int
    decreases s.len(),
{
    if s.len() == 0 || s[0] == '}' {
        0
    } else {
        1 + brace_end(s.drop_first())
    }
}

/// One token put in front of the rest.
pub open spec fn before(
    t: Token,
    rest: Result<Seq<Token>, TemplateFault>,
) -> Result<Seq<Token>, TemplateFault> {
    match rest {
        Ok(ts) => Ok(seq![t] + ts),
        Err(e) => Err(e),
    }
}

/// The tokens of a template's source: `$$` is a dollar sign, `${name}` a placeholder, and
/// every other character, a lone dollar sign too, stands for itself.
pub open spec fn tokens(s: Seq<char>) -> Result<Seq<Token>, TemplateFault>
    decreases s.len(),
{
    if s.len() == 0 {
        Ok(Seq::<Token>::empty())
    } else if s[0] == '$' && s.len() > 1 && s[1] == '$' {
        before(Token::Char('$'), tokens(s.skip(2)))
    } else if s[0] == '$' && s.len() > 1 && s[1] == '{' {
        let end = brace_end(s.skip(2));
        let name = s.skip(2).take(end);
        if end >= s.len() - 2 {
            Err(TemplateFault::Unclosed)
        } else if end <= 0 {
            Err(TemplateFault::EmptyName)
        } else {
            match var_named(name) {
                Some(v) => before(Token::Var(v), tokens(s.skip(2).skip(end + 1))),
                None => Err(TemplateFault::Unknown(name)),
            }
        }
    } else {
        before(Token::Char(s[0]), tokens(s.skip(1)))
    }
}

/// The literal text that a run of tokens ends with.
pub open spec fn open_literal(ts: Seq<Token>) -> Seq<char>
    decreases ts.len(),
{
    if ts.len() == 0 {
        Seq::empty()
    } else {
        match ts.last() {
            Token::Char(c) => open_literal(ts.drop_last()).push(c),
            Token::Var(_) => Seq::empty(),
        }
    }
}

/// The parts before that text: each literal is a maximal run of characters.
pub open spec fn closed_parts(ts: Seq<Token>) -> Seq<PartModel>
    decreases ts.len(),
{
    if ts.len() == 0 {
        Seq::empty()
    } else {
        match ts.last() {
            Token::Char(_) => closed_parts(ts.drop_last()),
            Token::Var(v) => close_literal(
                closed_parts(ts.drop_last()),
                open_literal(ts.drop_last()),
            ).push(PartModel::Var(v)),
        }
    }
}

/// Parts followed by a literal, where there is any text.
pub open spec fn close_literal(parts: Seq<PartModel>, lit: Seq<char>) -> Seq<PartModel> {
    if lit.len() > 0 {
        parts.push(PartModel::Literal(lit))
    } else {
        parts
    }
}

/// The parts of a sequence of tokens: a template without tokens is one empty literal.
pub open spec fn group(ts: Seq<Token>) -> Seq<PartModel> {
    let parts = close_literal(closed_parts(ts), open_literal(ts));
    if parts.len() == 0 {
        seq![PartModel::Literal(Seq::<char>::empty())]
    } else {
        parts
    }
}

/// Parsed template.
#[derive(Debug, PartialEq, Eq)]
pub struct Template {
    parts: Vec<TemplatePart>,
}

impl Template {
    /// The parts, with their texts as sequences.
    pub closed spec fn model(&self) -> Seq<PartModel> {
        part_models(self.parts@)
    }

    /// Parse a template.
    pub fn parse(input: &str) -> (r: Result<Template, Error>)
        ensures
            r matches Ok(t) ==> tokens(input@) matches Ok(ts) && t.model() == group(ts),
            r matches Err(e) ==> tokens(input@) matches Err(f) && e.is_invalid(f.reason()),
    {
        let chars = chars_of(input);
        let n: usize = chars.len();
        let mut literal = String::new();
        let mut parts: Vec<TemplatePart> = Vec::new();
        let ghost mut done: Seq<Token> = Seq::empty();
        let mut i: usize = 0;
        proof {
            assert(chars@.skip(0) =~= chars@);
            assert(part_models(parts@) =~= closed_parts(done));
        }
        while i < n
            invariant
                n == chars@.len(),
                chars@ == input@,
                i <= n,
                literal@ == open_literal(done),
                part_models(parts@) == closed_parts(done),
                tokens(chars@) == after(done, tokens(chars@.skip(i as int))),
            decreases n - i,
        {
            let ghost rest = chars@.skip(i as int);
            assert(rest[0] == chars@[i as int]);
            let (next, tok): (usize, Ghost<Token>) = if chars[i] == '$' && i + 1 < n && chars[i + 1]
                == '$' {
                literal.push('$');
                assert(rest.skip(2) =~= chars@.skip(i + 2));
                (i + 2, Ghost(Token::Char('$')))
            } else if chars[i] == '$' && i + 1 < n && chars[i + 1] == '{' {
                let start: usize = i + 2;
                let mut j: usize = start;
                let ghost tail = rest.skip(2);
                proof {
                    assert(tail =~= chars@.skip(start as int));
                }
                while j < n && chars[j] != '}'
                    invariant
                        n == chars@.len(),
                        start <= j <= n,
                        tail == chars@.skip(start as int),
                        brace_end(tail) == (j - start) + brace_end(chars@.skip(j as int)),
                    decreases n - j,
                {
                    assert(chars@.skip(j as int).drop_first() =~= chars@.skip(j + 1));
                    j = j + 1;
                }
                proof {
                    assert(brace_end(chars@.skip(j as int)) == 0);
                    assert(tail.take(j - start) =~= chars@.subrange(start as int, j as int));
                }
                if j == n {
                    return Err(Error::ConfigInvalid { reason: "unclosed placeholder".to_owned() });
                }
                let name = string_of(&chars, start, j);
                if j == start {
                    return Err(Error::ConfigInvalid { reason: "empty placeholder".to_owned() });
                }
                let var = match PlaceholderVar::from_str(name.as_str()) {
                    Ok(v) => v,
                    Err(e) => {
                        return Err(e);
                    },
                };
                if !literal.as_str().is_empty() {
                    parts.push(TemplatePart::Literal(literal));
                    literal = String::new();
                }
                parts.push(TemplatePart::Var(var));
                proof {
                    let closed = close_literal(closed_parts(done), open_literal(done));
                    assert(part_models(parts@) =~= closed.push(PartModel::Var(var)));
                    assert(tail.skip(j - start + 1) =~= chars@.skip(j + 1));
                    assert(literal@ =~= Seq::<char>::empty());
                }
                (j + 1, Ghost(Token::Var(var)))
            } else {
                let c = char_at(&chars, i);
                literal.push(c);
                assert(rest.skip(1) =~= chars@.skip(i + 1));
                (i + 1, Ghost(Token::Char(c)))
            };
            proof {
                assert(tokens(rest) == before(tok@, tokens(chars@.skip(next as int))));
                lemma_after(done, tok@, tokens(chars@.skip(next as int)));
                lemma_group_step(done, tok@);
                done = done.push(tok@);
            }
            i = next;
        }
        proof {
            assert(tokens(chars@.skip(n as int)) == Ok::<Seq<Token>, TemplateFault>(
                Seq::<Token>::empty(),
            ));
            assert(done + Seq::<Token>::empty() =~= done);
        }
        if !literal.as_str().is_empty() || parts.len() == 0 {
            let ghost old_parts = parts@;
            parts.push(TemplatePart::Literal(literal));
            proof {
                assert(part_models(parts@) =~= part_models(old_parts).push(
                    PartModel::Literal(literal@),
                ));
                if literal@.len() == 0 {
                    assert(literal@ =~= Seq::<char>::empty());
                    assert(part_models(parts@) =~= seq![PartModel::Literal(Seq::<char>::empty())]);
                }
            }
        }
        assert(part_models(parts@) =~= group(done));
        Ok(Template { parts })
    }

    /// Return parsed parts.
    pub fn parts(&self) -> (r: &Vec<TemplatePart>)
        ensures
            part_models(r@) == self.model(),
    {
        &self.parts
    }
}

/// The text of a template under values for its variables, or the first variable without one.
pub open spec fn rendered(
    parts: Seq<PartModel>,
    values: spec_fn(PlaceholderVar) -> Option<Seq<char>>,
) -> Result<Seq<char>, PlaceholderVar>
    decreases parts.len(),
{
    if parts.len() == 0 {
        Ok(Seq::<char>::empty())
    } else {
        match rendered(parts.drop_last(), values) {
            Err(v) => Err(v),
            Ok(text) => match parts.last() {
                PartModel::Literal(s) => Ok(text + s),
                PartModel::Var(v) => match values(v) {
                    Some(value) => Ok(text + value),
                    None => Err(v),
                },
            },
        }
    }
}

/// Whether a resolver gives what `values` says of each variable.
pub open spec fn resolves_by<F: Fn(&PlaceholderVar) -> Option<String>>(
    resolve: F,
    values: spec_fn(PlaceholderVar) -> Option<Seq<char>>,
) -> bool {
    forall|v: PlaceholderVar, o: Option<String>|
        #[trigger] call_ensures(resolve, (&v,), o) ==> (match o {
            Some(s) => values(v) == Some(s@),
            None => values(v) is None,
        })
}

/// Whether `r` is the rendering of `parts` under `values`.
pub open spec fn renders_to(
    parts: Seq<PartModel>,
    values: spec_fn(PlaceholderVar) -> Option<Seq<char>>,
    r: Result<String, Error>,
) -> bool {
    match r {
        Ok(s) => rendered(parts, values) == Ok::<Seq<char>, PlaceholderVar>(s@),
        Err(e) => rendered(parts, values) matches Err(v) && e.is_invalid(
            "missing placeholder value: "@ + v.variant(),
        ),
    }
}

pub(crate) proof fn lemma_rendered_prefix(
    parts: Seq<PartModel>,
    i: int,
    values: spec_fn(PlaceholderVar) -> Option<Seq<char>>,
)
    requires
        0 <= i <= parts.len(),
        rendered(parts.take(i), values) is Err,
    ensures
        rendered(parts, values) == rendered(parts.take(i), values),
    decreases parts.len(),
{
    if i == parts.len() {
        assert(parts.take(i) =~= parts);
    } else {
        assert(parts.drop_last().take(i) =~= parts.take(i));
        lemma_rendered_prefix(parts.drop_last(), i, values);
    }
}

impl Template {
    /// Render with a resolver.
    pub fn render<F>(&self, resolve: F) -> (r: Result<String, Error>) where
        F: Fn(&PlaceholderVar) -> Option<String>,
        requires
            forall|v: PlaceholderVar| #[trigger] call_requires(resolve, (&v,)),
        ensures
            forall|values: spec_fn(PlaceholderVar) -> Option<Seq<char>>|
                resolves_by(resolve, values) ==> #[trigger] renders_to(self.model(), values, r),
    {
        let ghost model = self.model();
        let mut out = String::new();
        let mut i: usize = 0;
        proof {
            assert(model.take(0) =~= Seq::<PartModel>::empty());
        }
        while i < self.parts.len()
            invariant
                i <= self.parts@.len(),
                model == part_models(self.parts@),
                forall|v: PlaceholderVar| #[trigger] call_requires(resolve, (&v,)),
                forall|values: spec_fn(PlaceholderVar) -> Option<Seq<char>>|
                    resolves_by(resolve, values) ==> #[trigger] rendered(
                        model.take(i as int),
                        values,
                    ) == Ok::<Seq<char>, PlaceholderVar>(out@),
            decreases self.parts@.len() - i,
        {
            let ghost here = model.take(i as int);
            let ghost next = model.take(i + 1);
            let ghost before_text = out@;
            proof {
                assert(next.drop_last() =~= here);
                assert(next.last() == self.parts@[i as int]@);
            }
            match &self.parts[i] {
                TemplatePart::Literal(s) => {
                    out.append(s.as_str());
                },
                TemplatePart::Var(v) => {
                    match resolve(v) {
                        Some(value) => {
                            out.append(value.as_str());
                        },
                        None => {
                            let name = v.variant_name();
                            let err = Error::ConfigInvalid {
                                reason: cat2("missing placeholder value: ", name),
                            };
                            proof {
                                assert forall|values: spec_fn(PlaceholderVar) -> Option<Seq<char>>|
                                    resolves_by(resolve, values) implies renders_to(
                                    model,
                                    values,
                                    Err::<String, Error>(err),
                                ) by {
                                    assert(rendered(here, values) is Ok);
                                    lemma_rendered_prefix(model, i + 1, values);
                                }
                            }
                            return Err(err);
                        },
                    }
                },
            }
            proof {
                assert forall|values: spec_fn(PlaceholderVar) -> Option<Seq<char>>|
                    resolves_by(resolve, values) implies #[trigger] rendered(next, values) == Ok::<
                    Seq<char>,
                    PlaceholderVar,
                >(out@) by {
                    assert(rendered(here, values) is Ok);
                }
            }
            i = i + 1;
        }
        proof {
            assert(model.take(self.parts@.len() as int) =~= model);
        }
        Ok(out)
    }
}

/// Tokens already read, in front of the outcome for the rest.
spec fn after(done: Seq<Token>, rest: Result<Seq<Token>, TemplateFault>) -> Result<
    Seq<Token>,
    TemplateFault,
> {
    match rest {
        Ok(ts) => Ok(done + ts),
        Err(e) => Err(e),
    }
}

proof fn lemma_group_step(done: Seq<Token>, t: Token)
    ensures
        open_literal(done.push(t)) == match t {
            Token::Char(c) => open_literal(done).push(c),
            Token::Var(_) => Seq::empty(),
        },
        closed_parts(done.push(t)) == match t {
            Token::Char(_) => closed_parts(done),
            Token::Var(v) => close_literal(closed_parts(done), open_literal(done)).push(
                PartModel::Var(v),
            ),
        },
{
    assert(done.push(t).drop_last() =~= done);
}

proof fn lemma_after(done: Seq<Token>, t: Token, rest: Result<Seq<Token>, TemplateFault>)
    ensures
        after(done, before(t, rest)) == after(done.push(t), rest),
{
    match rest {
        Ok(ts) => {
            assert(done + (seq![t] + ts) =~= done.push(t) + ts);
        },
        Err(_) => {},
    }
}

/// The source text of a token: the dollar sign doubled, a variable in braces.
pub open spec fn token_source(t: Token) -> Seq<char> {
    match t {
        Token::Char(c) => if c == '$' {
            seq!['$', '$']
        } else {
            seq![c]
        },
        Token::Var(v) => seq!['$', '{'] + v.name() + seq!['}'],
    }
}

/// The source text of a sequence of tokens.
pub open spec fn source_of(ts: Seq<Token>) -> Seq<char>
    decreases ts.len(),
{
    if ts.len() == 0 {
        Seq::empty()
    } else {
        token_source(ts[0]) + source_of(ts.drop_first())
    }
}

proof fn lemma_name_has_no_brace(v: PlaceholderVar)
    ensures
        v.name().len() > 0,
        forall|i: int| 0 <= i < v.name().len() ==> v.name()[i] != '}',
{
    reveal_strlit("pam_user");
    reveal_strlit("pam_service");
    reveal_strlit("host_id");
    reveal_strlit("host_id_hash");
    reveal_strlit("host_id_source");
    reveal_strlit("cert_cn");
    reveal_strlit("cert_serial");
    reveal_strlit("usb_serial");
    reveal_strlit("usb_vid_pid");
    reveal_strlit("session_id");
}

proof fn lemma_brace_end(name: Seq<char>, rest: Seq<char>)
    requires
        forall|i: int| 0 <= i < name.len() ==> name[i] != '}',
    ensures
        brace_end(name + seq!['}'] + rest) == name.len(),
    decreases name.len(),
{
    let whole = name + seq!['}'] + rest;
    if name.len() > 0 {
        assert(whole[0] == name[0]);
        assert(whole.drop_first() =~= name.drop_first() + seq!['}'] + rest);
        lemma_brace_end(name.drop_first(), rest);
    } else {
        assert(whole[0] == '}');
    }
}

/// Writing tokens out and parsing the text gives the same tokens back.
pub proof fn written_tokens_parse_back(ts: Seq<Token>)
    ensures
        tokens(source_of(ts)) == Ok::<Seq<Token>, TemplateFault>(ts),
    decreases ts.len(),
{
    let s = source_of(ts);
    if ts.len() == 0 {
        assert(ts =~= Seq::<Token>::empty());
    } else {
        let rest = source_of(ts.drop_first());
        written_tokens_parse_back(ts.drop_first());
        assert(seq![ts[0]] + ts.drop_first() =~= ts);
        match ts[0] {
            Token::Char(c) => {
                if c == '$' {
                    assert(s.skip(2) =~= rest);
                    assert(s[0] == '$' && s[1] == '$');
                } else {
                    assert(s.skip(1) =~= rest);
                    assert(s[0] == c);
                }
            },
            Token::Var(v) => {
                lemma_name_has_no_brace(v);
                lemma_brace_end(v.name(), rest);
                var_name_round_trips(v);
                let tail = s.skip(2);
                assert(tail =~= v.name() + seq!['}'] + rest);
                assert(s[0] == '$' && s[1] == '{');
                assert(tail.take(v.name().len() as int) =~= v.name());
                assert(tail.skip(v.name().len() as int + 1) =~= rest);
            },
        }
    }
}

/// The token of one character of text.
pub open spec fn char_token(c: char) -> Token {
    Token::Char(c)
}

/// The tokens of plain text.
pub open spec fn char_tokens(s: Seq<char>) -> Seq<Token>
    decreases s.len(),
{
    if s.len() == 0 {
        Seq::empty()
    } else {
        char_tokens(s.drop_last()).push(char_token(s.last()))
    }
}

/// Text written with its dollar signs doubled is a template of one literal, which renders to
/// that text whatever the variables hold.
pub proof fn escaped_text_renders_itself(
    s: Seq<char>,
    values: spec_fn(PlaceholderVar) -> Option<Seq<char>>,
)
    ensures
        tokens(source_of(char_tokens(s))) == Ok::<Seq<Token>, TemplateFault>(char_tokens(s)),
        group(char_tokens(s)) == seq![PartModel::Literal(s)],
        rendered(group(char_tokens(s)), values) == Ok::<Seq<char>, PlaceholderVar>(s),
{
    written_tokens_parse_back(char_tokens(s));
    lemma_char_tokens(s);
    let parts = group(char_tokens(s));
    if s.len() == 0 {
        assert(s =~= Seq::<char>::empty());
    }
    assert(parts =~= seq![PartModel::Literal(s)]);
    assert(parts.drop_last() =~= Seq::<PartModel>::empty());
    assert(parts.last() == PartModel::Literal(s));
    assert(rendered(parts.drop_last(), values) == Ok::<Seq<char>, PlaceholderVar>(
        Seq::<char>::empty(),
    ));
    assert(Seq::<char>::empty() + s =~= s);
}

proof fn lemma_char_tokens(s: Seq<char>)
    ensures
        open_literal(char_tokens(s)) == s,
        closed_parts(char_tokens(s)) == Seq::<PartModel>::empty(),
    decreases s.len(),
{
    if s.len() == 0 {
        assert(s =~= Seq::<char>::empty());
    } else {
        let c: char = s.last();
        lemma_char_tokens(s.drop_last());
        lemma_group_step(char_tokens(s.drop_last()), char_token(c));
        assert(s.drop_last().push(c) =~= s);
    }
}

/// A parsed template has at least one part, and no literal in it but the only one is empty.
pub proof fn parsed_template_is_normal(ts: Seq<Token>)
    ensures
        group(ts).len() >= 1,
        group(ts).len() > 1 ==> forall|i: int|
            0 <= i < group(ts).len() && (#[trigger] group(ts)[i]) is Literal
                ==> group(ts)[i]->Literal_0.len() > 0,
{
    lemma_closed_parts_nonempty(ts);
}

proof fn lemma_closed_parts_nonempty(ts: Seq<Token>)
    ensures
        forall|i: int|
            0 <= i < closed_parts(ts).len() && (#[trigger] closed_parts(ts)[i]) is Literal
                ==> closed_parts(ts)[i]->Literal_0.len() > 0,
    decreases ts.len(),
{
    if ts.len() > 0 {
        lemma_closed_parts_nonempty(ts.drop_last());
    }
}

/// Each placeholder goes by one name, and no other text names one.
pub proof fn placeholders_go_by_their_names(s: Seq<char>)
    ensures
        var_named("pam_user"@) == Some(PlaceholderVar::PamUser),
        PlaceholderVar::PamUser.name() == "pam_user"@,
        var_named("pam_service"@) == Some(PlaceholderVar::PamService),
        PlaceholderVar::PamService.name() == "pam_service"@,
        var_named("host_id"@) == Some(PlaceholderVar::HostId),
        PlaceholderVar::HostId.name() == "host_id"@,
        var_named("host_id_hash"@) == Some(PlaceholderVar::HostIdHash),
        PlaceholderVar::HostIdHash.name() == "host_id_hash"@,
        var_named("host_id_source"@) == Some(PlaceholderVar::HostIdSource),
        PlaceholderVar::HostIdSource.name() == "host_id_source"@,
        var_named("cert_cn"@) == Some(PlaceholderVar::CertCn),
        PlaceholderVar::CertCn.name() == "cert_cn"@,
        var_named("cert_serial"@) == Some(PlaceholderVar::CertSerial),
        PlaceholderVar::CertSerial.name() == "cert_serial"@,
        var_named("usb_serial"@) == Some(PlaceholderVar::UsbSerial),
        PlaceholderVar::UsbSerial.name() == "usb_serial"@,
        var_named("usb_vid_pid"@) == Some(PlaceholderVar::UsbVidPid),
        PlaceholderVar::UsbVidPid.name() == "usb_vid_pid"@,
        var_named("session_id"@) == Some(PlaceholderVar::SessionId),
        PlaceholderVar::SessionId.name() == "session_id"@,
        var_named(s) is Some ==> s == var_named(s)->0.name(),
{
    reveal_strlit("pam_user");
    reveal_strlit("pam_service");
    reveal_strlit("host_id");
    reveal_strlit("host_id_hash");
    reveal_strlit("host_id_source");
    reveal_strlit("cert_cn");
    reveal_strlit("cert_serial");
    reveal_strlit("usb_serial");
    reveal_strlit("usb_vid_pid");
    reveal_strlit("session_id");
    assert("pam_user"@.len() == 8);
    assert("pam_service"@.len() == 11);
    assert("host_id"@.len() == 7);
    assert("host_id_hash"@.len() == 12);
    assert("host_id_source"@.len() == 14);
    assert("cert_cn"@.len() == 7);
    assert("cert_serial"@.len() == 11);
    assert("usb_serial"@.len() == 10);
    assert("usb_vid_pid"@.len() == 11);
    assert("session_id"@.len() == 10);
    assert("pam_service"@[0] == 'p');
    assert("cert_serial"@[0] == 'c');
    assert("usb_vid_pid"@[0] == 'u');
    assert("host_id"@[0] == 'h');
    assert("cert_cn"@[0] == 'c');
    assert("usb_serial"@[0] == 'u');
    assert("session_id"@[0] == 's');
}

/// Rendering goes part by part: a literal stands for itself and a placeholder for its value; the
/// first placeholder without a value is the one that is missed.
pub proof fn rendering_joins_the_parts(
    parts: Seq<PartModel>,
    next: PartModel,
    values: spec_fn(PlaceholderVar) -> Option<Seq<char>>,
)
    ensures
        rendered(Seq::<PartModel>::empty(), values) == Ok::<Seq<char>, PlaceholderVar>(
            Seq::empty(),
        ),
        rendered(parts, values) matches Err(v) ==> rendered(parts.push(next), values) == Err::<
            Seq<char>,
            PlaceholderVar,
        >(v),
        rendered(parts, values) matches Ok(text) ==> match next {
            PartModel::Literal(s) => rendered(parts.push(next), values) == Ok::<
                Seq<char>,
                PlaceholderVar,
            >(text + s),
            PartModel::Var(v) => match values(v) {
                Some(value) => rendered(parts.push(next), values) == Ok::<
                    Seq<char>,
                    PlaceholderVar,
                >(text + value),
                None => rendered(parts.push(next), values) == Err::<Seq<char>, PlaceholderVar>(v),
            },
        },
{
    assert(parts.push(next).drop_last() =~= parts);
}

/// A template that renders names no placeholder without a value, and one that does not names the
/// placeholder that it misses.
pub proof fn missing_values_are_named(
    parts: Seq<PartModel>,
    values: spec_fn(PlaceholderVar) -> Option<Seq<char>>,
    i: int,
)
    requires
        0 <= i < parts.len(),
    ensures
        rendered(parts, values) is Ok ==> (parts[i] matches PartModel::Var(v) ==> values(v) is Some),
        rendered(parts, values) matches Err(v) ==> values(v) is None && exists|j: int|
            0 <= j < parts.len() && #[trigger] parts[j] == PartModel::Var(v),
    decreases parts.len(),
{
    let p = parts.drop_last();
    if p.len() > 0 {
        missing_values_are_named(p, values, if i < p.len() { i } else { 0 });
    }
    if let Err(v) = rendered(parts, values) {
        if rendered(p, values) is Err {
            let j = choose|j: int| 0 <= j < p.len() && #[trigger] p[j] == PartModel::Var(v);
            assert(parts[j] == PartModel::Var(v));
        } else {
            assert(parts[parts.len() - 1] == PartModel::Var(v));
        }
    }
}

/// Text without a dollar sign is taken as it stands; what follows it is read as it would be alone.
pub proof fn plain_text_is_taken_as_it_stands(c: char, rest: Seq<char>)
    requires
        c != '$',
    ensures
        tokens(rest) matches Ok(ts) ==> tokens(seq![c] + rest) == Ok::<Seq<Token>, TemplateFault>(
            seq![Token::Char(c)] + ts,
        ),
        tokens(rest) matches Err(f) ==> tokens(seq![c] + rest) == Err::<Seq<Token>, TemplateFault>(
            f,
        ),
{
    assert((seq![c] + rest).skip(1) =~= rest);
}

/// A dollar sign stands for itself unless a brace follows; of two only one is kept.
pub proof fn lone_dollar_stands_for_itself(c: char, rest: Seq<char>)
    requires
        c != '$',
        c != '{',
    ensures
        tokens(seq!['$']) == Ok::<Seq<Token>, TemplateFault>(seq![Token::Char('$')]),
        tokens(seq!['$', '$']) == Ok::<Seq<Token>, TemplateFault>(seq![Token::Char('$')]),
        tokens(seq![c] + rest) matches Ok(ts) ==> tokens(seq!['$', c] + rest) == Ok::<
            Seq<Token>,
            TemplateFault,
        >(seq![Token::Char('$')] + ts),
{
    assert(seq!['$'].skip(1) =~= Seq::<char>::empty());
    assert(seq!['$', '$'].skip(2) =~= Seq::<char>::empty());
    assert(tokens(Seq::<char>::empty()) == Ok::<Seq<Token>, TemplateFault>(Seq::empty()));
    assert(tokens(seq!['$'].skip(1)) == Ok::<Seq<Token>, TemplateFault>(Seq::empty()));
    assert(tokens(seq!['$', '$'].skip(2)) == Ok::<Seq<Token>, TemplateFault>(Seq::empty()));
    assert(seq![Token::Char('$')] + Seq::<Token>::empty() =~= seq![Token::Char('$')]);
    assert((seq!['$', c] + rest).skip(1) =~= seq![c] + rest);
}

/// A brace after a dollar sign opens a name that must be closed, must not be empty and must be
/// known.
pub proof fn names_in_braces_are_checked(name: Seq<char>, rest: Seq<char>)
    requires
        forall|i: int| 0 <= i < name.len() ==> name[i] != '}',
    ensures
        tokens(seq!['$', '{'] + name) == Err::<Seq<Token>, TemplateFault>(TemplateFault::Unclosed),
        name.len() == 0 ==> tokens(seq!['$', '{'] + name + seq!['}'] + rest) == Err::<
            Seq<Token>,
            TemplateFault,
        >(TemplateFault::EmptyName),
        name.len() > 0 && var_named(name) is None ==> tokens(
            seq!['$', '{'] + name + seq!['}'] + rest,
        ) == Err::<Seq<Token>, TemplateFault>(TemplateFault::Unknown(name)),
        name.len() > 0 && var_named(name) is Some && tokens(rest) is Ok ==> tokens(
            seq!['$', '{'] + name + seq!['}'] + rest,
        ) == Ok::<Seq<Token>, TemplateFault>(seq![Token::Var(var_named(name)->0)] + tokens(
            rest,
        )->Ok_0),
{
    let s = seq!['$', '{'] + name + seq!['}'] + rest;
    assert(s.skip(2) =~= name + seq!['}'] + rest);
    lemma_brace_end(name, rest);
    assert(s.skip(2).take(name.len() as int) =~= name);
    assert(s.skip(2).skip(name.len() as int + 1) =~= rest);
    let t = seq!['$', '{'] + name;
    assert(t.skip(2) =~= name);
    lemma_no_end(name);
}

proof fn lemma_no_end(name: Seq<char>)
    requires
        forall|i: int| 0 <= i < name.len() ==> name[i] != '}',
    ensures
        brace_end(name) == name.len(),
    decreases name.len(),
{
    if name.len() > 0 {
        assert(name[0] != '}');
        assert forall|i: int| 0 <= i < name.drop_first().len() implies name.drop_first()[i] != '}' by {
            assert(name.drop_first()[i] == name[i + 1]);
        }
        lemma_no_end(name.drop_first());
    }
}

/// What a template renders to is what its characters and placeholders say, in order, however they
/// are grouped.
pub proof fn grouping_keeps_the_text(
    ts: Seq<Token>,
    values: spec_fn(PlaceholderVar) -> Option<Seq<char>>,
)
    requires
        forall|v: PlaceholderVar| (#[trigger] values(v)) is Some,
    ensures
        rendered(group(ts), values) == Ok::<Seq<char>, PlaceholderVar>(
            ts.fold_left(
                Seq::<char>::empty(),
                |text: Seq<char>, t: Token|
                    match t {
                        Token::Char(c) => text.push(c),
                        Token::Var(v) => text + values(v)->0,
                    },
            ),
        ),
{
    let f = |text: Seq<char>, t: Token|
        match t {
            Token::Char(c) => text.push(c),
            Token::Var(v) => text + values(v)->0,
        };
    lemma_grouped(ts, values, f);
    let parts = close_literal(closed_parts(ts), open_literal(ts));
    let empty = Seq::<char>::empty();
    if parts.len() == 0 {
        let one = seq![PartModel::Literal(empty)];
        assert(one.drop_last() =~= Seq::<PartModel>::empty());
        assert(rendered(one.drop_last(), values) == Ok::<Seq<char>, PlaceholderVar>(empty));
        assert(empty + empty =~= empty);
    }
}

proof fn lemma_grouped(
    ts: Seq<Token>,
    values: spec_fn(PlaceholderVar) -> Option<Seq<char>>,
    f: spec_fn(Seq<char>, Token) -> Seq<char>,
)
    requires
        forall|v: PlaceholderVar| (#[trigger] values(v)) is Some,
        f == (|text: Seq<char>, t: Token|
            match t {
                Token::Char(c) => text.push(c),
                Token::Var(v) => text + values(v)->0,
            }),
    ensures
        rendered(close_literal(closed_parts(ts), open_literal(ts)), values) == Ok::<
            Seq<char>,
            PlaceholderVar,
        >(ts.fold_left(Seq::<char>::empty(), f)),
        rendered(closed_parts(ts), values) matches Ok(head) && head + open_literal(ts)
            == ts.fold_left(Seq::<char>::empty(), f),
    decreases ts.len(),
{
    reveal(Seq::fold_left);
    let empty = Seq::<char>::empty();
    let lit = open_literal(ts);
    if ts.len() == 0 {
        assert(empty + lit =~= empty);
    } else {
        let p = ts.drop_last();
        lemma_grouped(p, values, f);
        let head = rendered(closed_parts(p), values)->Ok_0;
        match ts.last() {
            Token::Char(c) => {
                assert(head + lit =~= (head + open_literal(p)).push(c));
            },
            Token::Var(v) => {
                let before_it = close_literal(closed_parts(p), open_literal(p));
                assert(before_it.push(PartModel::Var(v)).drop_last() =~= before_it);
                let text = p.fold_left(empty, f) + values(v)->0;
                assert(text + lit =~= text);
            },
        }
    }
    let parts = closed_parts(ts);
    if lit.len() > 0 {
        assert(parts.push(PartModel::Literal(lit)).drop_last() =~= parts);
    } else {
        let head = rendered(parts, values)->Ok_0;
        assert(head + lit =~= head);
    }
}

/// A template renders to its parts joined, and fails where a value is missing, by the name of the
/// placeholder.
pub proof fn rendering_fails_for_missing_values_only(
    parts: Seq<PartModel>,
    values: spec_fn(PlaceholderVar) -> Option<Seq<char>>,
    r: Result<String, Error>,
)
    requires
        renders_to(parts, values, r),
    ensures
        rendered(parts, values) matches Ok(text) ==> (r matches Ok(s) && s@ == text),
        rendered(parts, values) matches Err(v) ==> (r matches Err(e) && e.is_invalid(
            "missing placeholder value: "@ + v.variant(),
        )),
{
}

} // verus!
