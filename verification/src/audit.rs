//! Audit events: what is recorded, before anything is sent anywhere.

use crate::foreign::nibble_char;
use crate::text::{char_at, chars_of};
use vstd::prelude::*;

verus! {

/// Severity of an event.
#[derive(Debug, Clone, Copy, PartialEq, Eq, Structural)]
pub enum AuditLevel {
    /// Debug.
    Debug,
    /// Info.
    Info,
    /// Warn.
    Warn,
    /// Error.
    Error,
}

/// Value of a field.
#[derive(Debug, PartialEq, Eq)]
pub enum AuditValue {
    /// Text.
    Text(String),
    /// A number.
    Int(i128),
}

/// One event: its target, severity, name and fields in order.
#[derive(Debug, PartialEq, Eq)]
pub struct AuditEvent {
    /// Target that the event is sent to.
    pub target: String,
    /// Severity.
    pub level: AuditLevel,
    /// Name of the event; empty where its message says it all.
    pub name: String,
    /// Fields, in order.
    pub fields: Vec<(String, AuditValue)>,
}

/// A field's value as contracts speak of it.
pub ghost enum ValueModel {
    /// Text.
    Text(Seq<char>),
    /// A number.
    Int(int),
}

/// An event as contracts speak of it.
pub ghost struct EventModel {
    /// Target that the event is sent to.
    pub target: Seq<char>,
    /// Severity.
    pub level: AuditLevel,
    /// Name of the event.
    pub name: Seq<char>,
    /// Fields, in order.
    pub fields: Seq<(Seq<char>, ValueModel)>,
}

impl View for AuditValue {
    type V = ValueModel;

    open spec fn view(&self) -> ValueModel {
        match self {
            AuditValue::Text(s) => ValueModel::Text(s@),
            AuditValue::Int(n) => ValueModel::Int(*n as int),
        }
    }
}

/// A field with its name and value as sequences.
pub open spec fn field_model(f: (String, AuditValue)) -> (Seq<char>, ValueModel) {
    (f.0@, f.1@)
}

impl View for AuditEvent {
    type V = EventModel;

    open spec fn view(&self) -> EventModel {
        EventModel {
            target: self.target@,
            level: self.level,
            name: self.name@,
            fields: self.fields@.map_values(|f: (String, AuditValue)| field_model(f)),
        }
    }
}

/// The events recorded so far, oldest first.
#[derive(Debug)]
pub struct AuditLog {
    /// Events, oldest first.
    pub events: Vec<AuditEvent>,
}

impl View for AuditLog {
    type V = Seq<EventModel>;

    open spec fn view(&self) -> Seq<EventModel> {
        self.events@.map_values(|e: AuditEvent| e@)
    }
}

impl AuditLog {
    /// An empty log.
    pub fn new() -> (r: AuditLog)
        ensures
            r@ == Seq::<EventModel>::empty(),
    {
        let r = AuditLog { events: Vec::new() };
        assert(r@ =~= Seq::<EventModel>::empty());
        r
    }

    /// Records an event.
    pub fn record(&mut self, e: AuditEvent)
        ensures
            final(self)@ == old(self)@.push(e@),
    {
        self.events.push(e);
        assert(self@ =~= old(self)@.push(e@));
    }
}

/// An event without fields.
pub open spec fn bare_event(target: Seq<char>, level: AuditLevel, name: Seq<char>) -> EventModel {
    EventModel { target, level, name, fields: Seq::empty() }
}

/// One event, or none.
pub open spec fn event_if(cond: bool, e: EventModel) -> Seq<EventModel> {
    if cond {
        seq![e]
    } else {
        Seq::empty()
    }
}

/// An event with a text field added.
pub open spec fn with_text(e: EventModel, name: Seq<char>, value: Seq<char>) -> EventModel {
    EventModel { fields: e.fields.push((name, ValueModel::Text(value))), ..e }
}

/// An event with a number field added.
pub open spec fn with_number(e: EventModel, name: Seq<char>, value: int) -> EventModel {
    EventModel { fields: e.fields.push((name, ValueModel::Int(value))), ..e }
}

impl AuditEvent {
    /// An event without fields.
    pub fn new(target: &str, level: AuditLevel, name: &str) -> (r: AuditEvent)
        ensures
            r@ == bare_event(target@, level, name@),
    {
        let r = AuditEvent {
            target: target.to_owned(),
            level,
            name: name.to_owned(),
            fields: Vec::new(),
        };
        assert(r@.fields =~= Seq::empty());
        r
    }

    /// The event with a text field added.
    pub fn text(self, name: &str, value: &str) -> (r: AuditEvent)
        ensures
            r@ == with_text(self@, name@, value@),
    {
        let mut e = self;
        let ghost before = e@;
        e.fields.push((name.to_owned(), AuditValue::Text(value.to_owned())));
        assert(e@.fields =~= with_text(before, name@, value@).fields);
        e
    }

    /// The event with a number field added.
    pub fn number(self, name: &str, value: i64) -> (r: AuditEvent)
        ensures
            r@ == with_number(self@, name@, value as int),
    {
        let mut e = self;
        let ghost before = e@;
        e.fields.push((name.to_owned(), AuditValue::Int(value as i128)));
        assert(e@.fields =~= with_number(before, name@, value as int).fields);
        e
    }

    /// The event with a field for any number added.
    pub fn integer(self, name: &str, value: i128) -> (r: AuditEvent)
        ensures
            r@ == with_number(self@, name@, value as int),
    {
        let mut e = self;
        let ghost before = e@;
        e.fields.push((name.to_owned(), AuditValue::Int(value)));
        assert(e@.fields =~= with_number(before, name@, value as int).fields);
        e
    }

    /// The event with a field for a number without a sign added.
    pub fn count(self, name: &str, value: u64) -> (r: AuditEvent)
        ensures
            r@ == with_number(self@, name@, value as int),
    {
        let mut e = self;
        let ghost before = e@;
        e.fields.push((name.to_owned(), AuditValue::Int(value as i128)));
        assert(e@.fields =~= with_number(before, name@, value as int).fields);
        e
    }
}

/// `k` lower-case hexadecimal digits of a number, leading zeros kept.
pub open spec fn fixed_hex(n: nat, k: nat) -> Seq<char>
    decreases k,
{
    if k == 0 {
        Seq::empty()
    } else {
        fixed_hex(n / 16, (k - 1) as nat).push(nibble_char((n % 16) as int))
    }
}

fn push_hex(n: u64, k: u64, out: &mut String)
    ensures
        final(out)@ == old(out)@ + fixed_hex(n as nat, k as nat),
    decreases k,
{
    if k > 0 {
        push_hex(n / 16, k - 1, out);
        let digits = chars_of("0123456789abcdef");
        proof {
            reveal_strlit("0123456789abcdef");
        }
        let d: usize = (n % 16) as usize;
        out.push(char_at(&digits, d));
    }
    assert(out@ =~= old(out)@ + fixed_hex(n as nat, k as nat));
}

/// Sixteen hexadecimal digits of a number.
pub fn hex16(n: u64) -> (r: String)
    ensures
        r@ == fixed_hex(n as nat, 16),
{
    let mut out = String::new();
    push_hex(n, 16, &mut out);
    assert(out@ =~= fixed_hex(n as nat, 16));
    out
}

/// Hexadecimal digits stand for the number: as many as were asked for, the lowest last.
pub proof fn digits_stand_for_the_number(n: nat, k: nat, i: int)
    requires
        0 <= i < k,
    ensures
        fixed_hex(n, k).len() == k,
        fixed_hex(n, k)[k - 1] == "0123456789abcdef"@[(n % 16) as int],
        i < k - 1 ==> fixed_hex(n, k)[i] == fixed_hex(n / 16, (k - 1) as nat)[i],
    decreases k,
{
    if k > 1 {
        digits_stand_for_the_number(n / 16, (k - 1) as nat, 0);
    } else {
        assert(fixed_hex(n / 16, 0).len() == 0);
    }
}

/// A field is added behind those that an event has, and nothing else of it changes.
pub proof fn fields_are_added_behind(e: EventModel, name: Seq<char>, text: Seq<char>, n: int)
    ensures
        with_text(e, name, text).fields == e.fields.push((name, ValueModel::Text(text))),
        with_number(e, name, n).fields == e.fields.push((name, ValueModel::Int(n))),
        with_text(e, name, text).target == e.target && with_text(e, name, text).level == e.level
            && with_text(e, name, text).name == e.name,
        with_number(e, name, n).target == e.target && with_number(e, name, n).level == e.level
            && with_number(e, name, n).name == e.name,
        event_if(true, e) == seq![e],
        event_if(false, e).len() == 0,
{
}

} // verus!
