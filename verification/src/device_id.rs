//! Identifiers of devices.
use vstd::prelude::*;

verus! {

/// The hex digit for a number below sixteen.
pub open spec fn hex_digit(d: nat) -> char {
    seq!['0', '1', '2', '3', '4', '5', '6', '7', '8', '9', 'a', 'b', 'c', 'd', 'e', 'f'][d as int]
}

/// The digits of `n` in base sixteen, in lower case, without leading zeros.
pub open spec fn hex_digits(n: nat) -> Seq<char>
    decreases n,
{
    if n < 16 {
        seq![hex_digit(n)]
    } else {
        hex_digits(n / 16).push(hex_digit(n % 16))
    }
}

/// The hex digit for a number below sixteen.
pub fn hex_digit_of(d: usize) -> (digit: char)
    requires
        d < 16,
    ensures
        digit == hex_digit(d as nat),
{
    let digits: [char; 16] = [
        '0',
        '1',
        '2',
        '3',
        '4',
        '5',
        '6',
        '7',
        '8',
        '9',
        'a',
        'b',
        'c',
        'd',
        'e',
        'f',
    ];
    digits[d]
}

/// Appends the digits of `n` in base sixteen to `out`.
pub fn push_hex(n: usize, out: &mut Vec<char>)
    ensures
        final(out)@ == old(out)@ + hex_digits(n as nat),
    decreases n,
{
    if n >= 16 {
        push_hex(n / 16, out);
    }
    out.push(hex_digit_of(n % 16));
    assert(out@ =~= old(out)@ + hex_digits(n as nat));
}

/// `String::from_iter` on a vector of characters: the string that holds
/// them, in order.
#[verifier::external_body]
pub(crate) fn string_of(chars: Vec<char>) -> (text: String)
    ensures
        text@ == chars@,
{
    String::from_iter(chars)
}

/// A locally unique identifier for a Device.
///
/// The number is the address of the plugboard that backs the Device, so it
/// stays unique for as long as the Device or any Line to it is alive. Two
/// identifiers are equal exactly when their numbers are equal.
#[derive(Clone, Copy, Debug, PartialEq, Eq, Structural, PartialOrd, Ord, Hash)]
pub struct DeviceID {
    pub(crate) inner: usize,
}

impl DeviceID {
    /// The number that stands behind the identifier.
    pub closed spec fn value(self) -> usize {
        self.inner
    }

    /// Two identifiers are the same exactly when their numbers are.
    pub proof fn value_is_injective(a: DeviceID, b: DeviceID)
        ensures
            (a.value() == b.value()) == (a == b),
    {
    }

    /// Wraps a number as an identifier.
    pub fn new(inner: usize) -> (did: DeviceID)
        ensures
            did.value() == inner,
    {
        DeviceID { inner }
    }

    /// Returns the number that stands behind the identifier.
    pub fn into_inner(self) -> (inner: usize)
        ensures
            inner == self.value(),
    {
        self.inner
    }

    /// How an identifier is written: its number in hex between `DeviceID<`
    /// and `>`.
    pub open spec fn rendered(self) -> Seq<char> {
        seq!['D', 'e', 'v', 'i', 'c', 'e', 'I', 'D', '<'] + hex_digits(self.value() as nat) + seq![
            '>',
        ]
    }

    /// Writes the identifier out, as in `DeviceID<7f00>`.
    pub fn to_string(&self) -> (text: String)
        ensures
            text@ == self.rendered(),
    {
        let mut chars: Vec<char> = Vec::new();
        chars.push('D');
        chars.push('e');
        chars.push('v');
        chars.push('i');
        chars.push('c');
        chars.push('e');
        chars.push('I');
        chars.push('D');
        chars.push('<');
        assert(chars@ =~= seq!['D', 'e', 'v', 'i', 'c', 'e', 'I', 'D', '<']);
        push_hex(self.inner, &mut chars);
        chars.push('>');
        string_of(chars)
    }

    /// Whether this identifier sorts strictly before `other`; identifiers are
    /// ordered by their numbers.
    pub fn precedes(&self, other: &DeviceID) -> (before: bool)
        ensures
            before == (self.value() < other.value()),
    {
        self.inner < other.inner
    }
}

impl From<DeviceID> for usize {
    /// The number that stands behind the identifier.
    fn from(did: DeviceID) -> (inner: usize) {
        did.inner
    }
}

impl vstd::std_specs::convert::FromSpecImpl<DeviceID> for usize {
    open spec fn obeys_from_spec() -> bool {
        true
    }

    open spec fn from_spec(did: DeviceID) -> usize {
        did.value()
    }
}

} // verus!
