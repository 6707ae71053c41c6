//! `IntegrityLabel`: an integrity coordinate, a linear level and a set of categories.

use crate::audit::AuditLog;
use crate::mac::audit::{categories_above_32bit_event, emit_categories_above_32bit};
use crate::text::cat2;
use vstd::prelude::*;

verus! {

/// Errors of decoding an [`IntegrityLabel`].
#[derive(Debug)]
pub enum LabelDerError {
    /// The level does not fit in an `i8`.
    LevelOutOfRange,
    /// Malformed DER.
    Malformed(&'static str),
}

impl LabelDerError {
    /// The text shown for the error.
    pub open spec fn message_text(&self) -> Seq<char> {
        match self {
            LabelDerError::LevelOutOfRange => "level out of int8 range"@,
            LabelDerError::Malformed(what) => "malformed DER: "@ + what@,
        }
    }

    /// The text shown for the error.
    pub fn message(&self) -> (r: String)
        ensures
            r@ == self.message_text(),
    {
        match self {
            LabelDerError::LevelOutOfRange => "level out of int8 range".to_owned(),
            LabelDerError::Malformed(what) => cat2("malformed DER: ", what),
        }
    }
}

/// Bound on integrity: a linear level, negative for the untrusted, and a 64-bit mask of
/// integrity categories.
#[derive(Debug, Clone, Copy, PartialEq, Eq, Structural)]
pub struct IntegrityLabel {
    /// Linear integrity level. Negative levels are untrusted; 0 is the default.
    pub level: i8,
    /// Mask of integrity categories.
    pub categories: u64,
}

/// The lower of two levels.
pub open spec fn lower_level(a: i8, b: i8) -> i8 {
    if a <= b {
        a
    } else {
        b
    }
}

/// The byte that holds a level in two's complement.
pub open spec fn level_byte(level: i8) -> u8 {
    if level >= 0 {
        level as u8
    } else {
        (level + 256) as u8
    }
}

/// The level that a byte holds in two's complement.
pub open spec fn byte_level(b: u8) -> i8 {
    if b < 128 {
        b as i8
    } else {
        (b - 256) as i8
    }
}

/// The shortest big-endian bytes of a number; none for zero.
pub open spec fn be_min(n: nat) -> Seq<u8>
    decreases n,
{
    if n == 0 {
        Seq::empty()
    } else {
        be_min(n / 256).push((n % 256) as u8)
    }
}

/// The number that big-endian bytes denote.
pub open spec fn be_value(b: Seq<u8>) -> nat
    decreases b.len(),
{
    if b.len() == 0 {
        0
    } else {
        be_value(b.drop_last()) * 256 + b.last() as nat
    }
}

/// `SEQUENCE { level INTEGER, categories BIT STRING }` of a label, in DER: the level in one
/// byte, the categories in as few bytes as they need.
pub open spec fn label_der(l: IntegrityLabel) -> Seq<u8> {
    let bits = be_min(l.categories as nat);
    seq![0x30u8, (6 + bits.len()) as u8, 0x02u8, 0x01u8, level_byte(l.level), 0x03u8, (1
        + bits.len()) as u8, 0x00u8] + bits
}

/// What decoding a byte string gives: a label, the refusal of the level (`Err(None)`), or the
/// first flaw in the structure.
pub open spec fn decoded(der: Seq<u8>) -> Result<IntegrityLabel, Option<Seq<char>>> {
    let n = der.len();
    if n < 2 || der[0] != 0x30 {
        Err(Some("not a SEQUENCE"@))
    } else if 2 + der[1] as int > n || der[1] >= 0x80 {
        Err(Some("bad seq length"@))
    } else if 2 + der[1] as int != n {
        Err(Some("trailing bytes after SEQUENCE"@))
    } else if n < 5 || der[2] != 0x02 {
        Err(Some("missing INTEGER tag"@))
    } else if der[3] == 0 || 4 + der[3] as int > n {
        Err(Some("bad INTEGER length"@))
    } else if der[3] != 1 {
        Err(None)
    } else if n == 5 {
        Ok(IntegrityLabel { level: byte_level(der[4]), categories: 0 })
    } else if n < 7 || der[5] != 0x03 {
        Err(Some("missing BIT STRING tag"@))
    } else if der[6] == 0 || 7 + der[6] as int > n {
        Err(Some("bad BIT STRING length"@))
    } else if 7 + der[6] as int != n {
        Err(Some("trailing bytes after BIT STRING"@))
    } else if der[7] > 7 {
        Err(Some("BIT STRING unused-bits > 7"@))
    } else if n > 16 {
        Err(Some("categories > 64 bits"@))
    } else {
        Ok(
            IntegrityLabel {
                level: byte_level(der[4]),
                categories: be_value(der.skip(8)) as u64,
            },
        )
    }
}

/// Whether every category of `a` is one of `b`.
pub open spec fn categories_within(a: u64, b: u64) -> bool {
    a & b == a
}

impl IntegrityLabel {
    /// Maximum allowed level.
    pub const MAX_LEVEL: i8 = 127;

    /// Minimum allowed level, for the untrusted.
    pub const MIN_LEVEL: i8 = -128;

    /// Set intersection: the lower level and the common categories.
    pub fn intersect(&self, other: &IntegrityLabel) -> (r: IntegrityLabel)
        ensures
            r == intersection(*self, *other),
    {
        let level: i8 = if self.level <= other.level {
            self.level
        } else {
            other.level
        };
        IntegrityLabel { level, categories: self.categories & other.categories }
    }

    /// Intersection of a certificate's bound (`self`) with a user's maximum (`other`). A bound
    /// without categories restricts none, so the user's survive. The arguments may not be
    /// swapped.
    pub fn intersect_cert_with_user(&self, other: &IntegrityLabel) -> (r: IntegrityLabel)
        ensures
            r == cert_within_user(*self, *other),
    {
        let categories: u64 = if self.categories == 0 {
            other.categories
        } else {
            self.categories & other.categories
        };
        let level: i8 = if self.level <= other.level {
            self.level
        } else {
            other.level
        };
        IntegrityLabel { level, categories }
    }

    /// Whether the label lies strictly below another: no category beyond the other's, no
    /// higher level, and not equal.
    pub fn strictly_below(&self, other: &IntegrityLabel) -> (r: bool)
        ensures
            r == below(*self, *other),
    {
        let cats_subset = (self.categories & other.categories) == self.categories;
        (self.level < other.level && cats_subset) || (self.level <= other.level && self.categories
            != other.categories && cats_subset)
    }

    /// Encodes as DER `SEQUENCE { level INTEGER, categories BIT STRING }`.
    pub fn to_der(&self) -> (r: Result<Vec<u8>, LabelDerError>)
        ensures
            r matches Ok(der) && der@ == label_der(*self),
    {
        let bits = be_bytes(self.categories);
        let mut out: Vec<u8> = Vec::new();
        out.push(0x30);
        out.push(6 + bits.len() as u8);
        out.push(0x02);
        out.push(0x01);
        let level: u8 = if self.level >= 0 {
            self.level as u8
        } else {
            (self.level as i16 + 256) as u8
        };
        out.push(level);
        out.push(0x03);
        out.push(1 + bits.len() as u8);
        out.push(0x00);
        let mut i: usize = 0;
        let ghost head = out@;
        while i < bits.len()
            invariant
                i <= bits@.len(),
                out@ == head + bits@.take(i as int),
            decreases bits@.len() - i,
        {
            out.push(bits[i]);
            assert(bits@.take(i + 1) =~= bits@.take(i as int).push(bits@[i as int]));
            i = i + 1;
        }
        assert(bits@.take(bits@.len() as int) =~= bits@);
        assert(out@ =~= label_der(*self));
        Ok(out)
    }

    /// Decodes a DER `SEQUENCE { level INTEGER, categories BIT STRING DEFAULT ''B }`. A label
    /// with categories beyond the 32nd is noted in the audit log.
    pub fn from_der(der: &[u8], log: &mut AuditLog) -> (r: Result<IntegrityLabel, LabelDerError>)
        ensures
            match r {
                Ok(l) => decoded(der@) == Ok::<IntegrityLabel, Option<Seq<char>>>(l),
                Err(LabelDerError::LevelOutOfRange) => decoded(der@) == Err::<
                    IntegrityLabel,
                    Option<Seq<char>>,
                >(None),
                Err(LabelDerError::Malformed(what)) => decoded(der@) == Err::<
                    IntegrityLabel,
                    Option<Seq<char>>,
                >(Some(what@)),
            },
            final(log)@ == match r {
                Ok(l) if l.categories >= 0x1_0000_0000 => old(log)@.push(
                    categories_above_32bit_event(l.categories),
                ),
                _ => old(log)@,
            },
    {
        let r = Self::decode(der);
        if let Ok(l) = &r {
            if l.categories >= 0x1_0000_0000 {
                emit_categories_above_32bit(log, l.categories);
            }
        }
        r
    }

    fn decode(der: &[u8]) -> (r: Result<IntegrityLabel, LabelDerError>)
        ensures
            match r {
                Ok(l) => decoded(der@) == Ok::<IntegrityLabel, Option<Seq<char>>>(l),
                Err(LabelDerError::LevelOutOfRange) => decoded(der@) == Err::<
                    IntegrityLabel,
                    Option<Seq<char>>,
                >(None),
                Err(LabelDerError::Malformed(what)) => decoded(der@) == Err::<
                    IntegrityLabel,
                    Option<Seq<char>>,
                >(Some(what@)),
            },
    {
        let n: usize = der.len();
        if n < 2 || der[0] != 0x30 {
            return Err(LabelDerError::Malformed("not a SEQUENCE"));
        }
        let seq_len: usize = der[1] as usize;
        if n - 2 < seq_len || der[1] >= 0x80 {
            return Err(LabelDerError::Malformed("bad seq length"));
        }
        if n - 2 != seq_len {
            return Err(LabelDerError::Malformed("trailing bytes after SEQUENCE"));
        }
        if n < 5 || der[2] != 0x02 {
            return Err(LabelDerError::Malformed("missing INTEGER tag"));
        }
        let int_len: usize = der[3] as usize;
        if int_len == 0 || n - 4 < int_len {
            return Err(LabelDerError::Malformed("bad INTEGER length"));
        }
        if int_len != 1 {
            return Err(LabelDerError::LevelOutOfRange);
        }
        let byte: u8 = der[4];
        let level: i8 = if byte < 128 {
            byte as i8
        } else {
            (byte as i16 - 256) as i8
        };
        if n == 5 {
            return Ok(IntegrityLabel { level, categories: 0 });
        }
        if n < 7 || der[5] != 0x03 {
            return Err(LabelDerError::Malformed("missing BIT STRING tag"));
        }
        let bs_len: usize = der[6] as usize;
        if bs_len == 0 || n - 7 < bs_len {
            return Err(LabelDerError::Malformed("bad BIT STRING length"));
        }
        if n - 7 != bs_len {
            return Err(LabelDerError::Malformed("trailing bytes after BIT STRING"));
        }
        if der[7] > 7 {
            return Err(LabelDerError::Malformed("BIT STRING unused-bits > 7"));
        }
        if n > 16 {
            return Err(LabelDerError::Malformed("categories > 64 bits"));
        }
        let mut categories: u64 = 0;
        let mut i: usize = 8;
        assert(der@.subrange(8, 8) =~= Seq::<u8>::empty());
        while i < n
            invariant
                8 <= i <= n,
                n == der@.len(),
                n <= 16,
                categories as nat == be_value(der@.subrange(8, i as int)),
            decreases n - i,
        {
            proof {
                let before = der@.subrange(8, i as int);
                let after = der@.subrange(8, i + 1);
                assert(after.drop_last() =~= before);
                lemma_be_value_bound(before);
                lemma_pow256_mono(before.len(), 7);
                reveal_with_fuel(pow256, 9);
            }
            categories = categories * 256 + der[i] as u64;
            i = i + 1;
        }
        assert(der@.subrange(8, n as int) =~= der@.skip(8));
        Ok(IntegrityLabel { level, categories })
    }
}

/// The lower level and the common categories.
pub open spec fn intersection(a: IntegrityLabel, b: IntegrityLabel) -> IntegrityLabel {
    IntegrityLabel {
        level: lower_level(a.level, b.level),
        categories: a.categories & b.categories,
    }
}

/// A certificate's bound within a user's maximum.
pub open spec fn cert_within_user(cert: IntegrityLabel, user: IntegrityLabel) -> IntegrityLabel {
    IntegrityLabel {
        level: lower_level(cert.level, user.level),
        categories: if cert.categories == 0 {
            user.categories
        } else {
            cert.categories & user.categories
        },
    }
}

/// Within another label: no higher level, no category beyond.
pub open spec fn within(a: IntegrityLabel, b: IntegrityLabel) -> bool {
    a.level <= b.level && categories_within(a.categories, b.categories)
}

/// Within another label and different from it.
pub open spec fn below(a: IntegrityLabel, b: IntegrityLabel) -> bool {
    within(a, b) && a != b
}

/// Powers of 256.
pub open spec fn pow256(n: nat) -> nat
    decreases n,
{
    if n == 0 {
        1
    } else {
        256 * pow256((n - 1) as nat)
    }
}

proof fn lemma_pow256_mono(a: nat, b: nat)
    requires
        a <= b,
    ensures
        pow256(a) <= pow256(b),
    decreases b,
{
    if a < b {
        lemma_pow256_mono(a, (b - 1) as nat);
    }
}

proof fn lemma_be_value_bound(b: Seq<u8>)
    ensures
        be_value(b) < pow256(b.len()),
    decreases b.len(),
{
    if b.len() > 0 {
        lemma_be_value_bound(b.drop_last());
    }
}

proof fn lemma_be_min(n: nat)
    ensures
        be_value(be_min(n)) == n,
        forall|k: nat| n < pow256(k) ==> be_min(n).len() <= k,
    decreases n,
{
    if n > 0 {
        lemma_be_min(n / 256);
        assert(be_min(n).drop_last() =~= be_min(n / 256));
        assert forall|k: nat| n < pow256(k) implies be_min(n).len() <= k by {
            if k > 0 {
                assert(n / 256 < pow256((k - 1) as nat)) by (nonlinear_arith)
                    requires
                        n < 256 * pow256((k - 1) as nat),
                ;
            }
        }
    }
}

/// The shortest big-endian bytes of a 64-bit number.
fn be_bytes(n: u64) -> (r: Vec<u8>)
    ensures
        r@ == be_min(n as nat),
        r@.len() <= 8,
    decreases n,
{
    proof {
        lemma_be_min(n as nat);
        reveal_with_fuel(pow256, 9);
        assert(pow256(8) == 0x1_0000_0000_0000_0000);
    }
    if n == 0 {
        Vec::new()
    } else {
        let mut out = be_bytes(n / 256);
        out.push((n % 256) as u8);
        out
    }
}

/// Decoding the encoding of a label gives the label back.
pub proof fn der_round_trips(l: IntegrityLabel)
    ensures
        decoded(label_der(l)) == Ok::<IntegrityLabel, Option<Seq<char>>>(l),
{
    let bits = be_min(l.categories as nat);
    lemma_be_min(l.categories as nat);
    reveal_with_fuel(pow256, 9);
    assert(pow256(8) == 0x1_0000_0000_0000_0000);
    assert(bits.len() <= 8);
    assert(label_der(l).skip(8) =~= bits);
}

/// The intersection does not depend on the order of its arguments.
pub proof fn intersection_commutes(a: IntegrityLabel, b: IntegrityLabel)
    ensures
        intersection(a, b) == intersection(b, a),
{
    let x = a.categories;
    let y = b.categories;
    assert(x & y == y & x) by (bit_vector);
}

/// The intersection lies within both arguments, and every label within both lies within it.
pub proof fn intersection_is_greatest_lower_bound(
    a: IntegrityLabel,
    b: IntegrityLabel,
    c: IntegrityLabel,
)
    ensures
        within(intersection(a, b), a),
        within(intersection(a, b), b),
        within(c, a) && within(c, b) ==> within(c, intersection(a, b)),
{
    let x = a.categories;
    let y = b.categories;
    let z = c.categories;
    assert((x & y) & x == x & y) by (bit_vector);
    assert((x & y) & y == x & y) by (bit_vector);
    assert(z & x == z && z & y == z ==> z & (x & y) == z) by (bit_vector);
}

/// A certificate's bound never lifts a session above the user's maximum, nor above the
/// certificate's level; its categories count only where it names any.
pub proof fn cert_never_exceeds_user(cert: IntegrityLabel, user: IntegrityLabel)
    ensures
        within(cert_within_user(cert, user), user),
        cert_within_user(cert, user).level <= cert.level,
        cert.categories != 0 ==> within(cert_within_user(cert, user), cert),
{
    let x = cert.categories;
    let y = user.categories;
    assert((x & y) & x == x & y) by (bit_vector);
    assert((x & y) & y == x & y) by (bit_vector);
    assert(y & y == y) by (bit_vector);
}

/// Being below is irreflexive and transitive.
pub proof fn below_is_strict_order(a: IntegrityLabel, b: IntegrityLabel, c: IntegrityLabel)
    ensures
        !below(a, a),
        below(a, b) && below(b, c) ==> below(a, c),
{
    let x = a.categories;
    let y = b.categories;
    let z = c.categories;
    assert(x & y == x && y & z == y ==> x & z == x) by (bit_vector);
    assert(x & y == x && y & x == y ==> x == y) by (bit_vector);
}

/// What a session gets of a certificate's bound: the lower of the two levels; every category of
/// the user where the bound names none, and else exactly those that both name.
pub proof fn bound_restricts_what_it_names(cert: IntegrityLabel, user: IntegrityLabel)
    ensures
        cert_within_user(cert, user).level <= cert.level,
        cert_within_user(cert, user).level <= user.level,
        cert_within_user(cert, user).level == cert.level || cert_within_user(cert, user).level
            == user.level,
        cert.categories == 0 ==> cert_within_user(cert, user).categories == user.categories,
        cert.categories != 0 ==> cert_within_user(cert, user).categories == cert.categories
            & user.categories,
        cert.categories != 0 ==> forall|bit: u64|
            bit < 64 ==> (#[trigger] (cert_within_user(cert, user).categories >> bit) & 1 == 1) == ((
            cert.categories >> bit) & 1 == 1 && (user.categories >> bit) & 1 == 1),
{
    let x = cert.categories;
    let y = user.categories;
    assert(forall|bit: u64|
        bit < 64 ==> (#[trigger] ((x & y) >> bit) & 1 == 1) == ((x >> bit) & 1 == 1 && (y >> bit) & 1
            == 1)) by (bit_vector);
}

/// A bound that is as high as the user's maximum and names no category, or all of the user's,
/// changes nothing.
pub proof fn wide_bound_changes_nothing(cert: IntegrityLabel, user: IntegrityLabel)
    requires
        cert.level >= user.level,
        cert.categories == 0 || cert.categories & user.categories == user.categories,
    ensures
        cert_within_user(cert, user) == user,
{
}

/// The plain intersection has the lower level and the categories that both labels have, so none
/// where one has none.
pub proof fn intersection_is_common(a: IntegrityLabel, b: IntegrityLabel)
    ensures
        intersection(a, b).level <= a.level,
        intersection(a, b).level <= b.level,
        intersection(a, b).level == a.level || intersection(a, b).level == b.level,
        intersection(a, b).categories == a.categories & b.categories,
        a.categories == 0 || b.categories == 0 ==> intersection(a, b).categories == 0,
        intersection(a, a) == a,
{
    let x = a.categories;
    let y = b.categories;
    assert(0u64 & y == 0 && x & 0u64 == 0 && x & x == x) by (bit_vector);
}

/// One label lies below another where it differs and neither its level nor any category goes
/// beyond the other's.
pub proof fn below_goes_by_level_and_categories(a: IntegrityLabel, b: IntegrityLabel)
    ensures
        below(a, b) <==> a.level <= b.level && a.categories & !b.categories == 0 && (a.level
            < b.level || a.categories != b.categories),
{
    let x = a.categories;
    let y = b.categories;
    assert((x & y == x) == (x & !y == 0)) by (bit_vector);
}

/// A byte string is a label exactly where it is a sequence of one byte of level and, perhaps, a bit
/// string of at most eight bytes, with nothing left over.
pub proof fn labels_have_one_shape(der: Seq<u8>)
    ensures
        decoded(der) is Ok <==> {
            &&& 5 <= der.len() <= 16
            &&& der[0] == 0x30 && der[1] == der.len() - 2
            &&& der[2] == 0x02 && der[3] == 0x01
            &&& der.len() == 5 || (der.len() >= 8 && der[5] == 0x03 && der[6] == der.len() - 7
                && der[7] <= 7)
        },
        decoded(der) matches Ok(l) ==> {
            &&& (l.level - der[4]) % 256 == 0
            &&& der.len() <= 8 ==> l.categories == 0
            &&& der.len() == 9 ==> l.categories == der[8]
            &&& der.len() == 10 ==> l.categories == der[8] * 256 + der[9]
        },
{
    if der.len() >= 8 {
        let b = der.skip(8);
        if b.len() >= 1 {
            assert(b.last() == der[der.len() - 1]);
        }
        if b.len() == 2 {
            assert(b.drop_last().last() == der[8]);
        }
        reveal_with_fuel(be_value, 3);
        assert(b.len() == 1 ==> be_value(b.drop_last()) == 0);
        assert(b.len() == 2 ==> be_value(b.drop_last().drop_last()) == 0);
    }
}

/// Each further byte of a number counts for itself and multiplies what is before it.
pub proof fn bytes_count_from_the_end(b: Seq<u8>, x: u8)
    ensures
        be_value(Seq::<u8>::empty()) == 0,
        be_value(b.push(x)) == be_value(b) * 256 + x,
{
    assert(b.push(x).drop_last() =~= b);
}

/// A byte string that is a label reads the same with one more byte of categories in front of a
/// shorter one: what is read of it is the number that its bytes denote.
pub proof fn categories_are_read_whole(der: Seq<u8>)
    requires
        decoded(der) is Ok,
        der.len() >= 8,
    ensures
        decoded(der)->Ok_0.categories == be_value(der.subrange(8, der.len() as int)) % 0x1_0000_0000_0000_0000,
        be_value(der.subrange(8, der.len() as int)) < 0x1_0000_0000_0000_0000,
{
    let b = der.subrange(8, der.len() as int);
    assert(b =~= der.skip(8));
    lemma_be_value_bound(b);
    lemma_pow256_mono(b.len(), 8);
    reveal_with_fuel(pow256, 9);
}

} // verus!
