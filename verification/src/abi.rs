//! The fixed, versioned event-schema description embedded in a processor.
//!
//! An on-chain contract's interface is represented as an immutable schema
//! value: event and function descriptions whose parameter types are already
//! in canonical form. The canonical signature string of an entry is
//! `name(type1,type2,...)`; its keccak hash is the event topic, and the
//! first four bytes of the function hash are the short call selector.

use vstd::prelude::*;
use vstd::string::StrSliceExecFns;
use vstd::utf8::encode_utf8;

use crate::hash::H256;

verus! {

/// ASCII '('.
pub const LPAREN: u8 = 40;

/// ASCII ')'.
pub const RPAREN: u8 = 41;

/// ASCII ','.
pub const COMMA: u8 = 44;

/// The digest Keccak-256 assigns to `data`; it depends on `data` alone.
pub uninterp spec fn keccak256_of(data: Seq<u8>) -> Seq<u8>;

/// Relies on tiny_keccak's `Keccak::v256` hasher: absorbing `data` and
/// squeezing once yields the 32-byte Keccak-256 digest of `data`.
#[verifier::external_body]
pub(crate) fn keccak256(data: &Vec<u8>) -> (r: [u8; 32])
    ensures
        r@ == keccak256_of(data@),
        r@.len() == 32,
{
    let mut hasher = tiny_keccak::Keccak::v256();
    tiny_keccak::Hasher::update(&mut hasher, data);
    let mut out = [0u8; 32];
    tiny_keccak::Hasher::finalize(hasher, &mut out);
    out
}

/// `parts` joined by ASCII commas.
pub open spec fn comma_joined(parts: Seq<Seq<u8>>) -> Seq<u8>
    decreases parts.len(),
{
    if parts.len() == 0 {
        Seq::empty()
    } else if parts.len() == 1 {
        parts[0]
    } else {
        comma_joined(parts.drop_last()) + seq![COMMA] + parts.last()
    }
}

/// The canonical signature preimage `name(part1,part2,...)`.
pub open spec fn signature_preimage(name: Seq<u8>, parts: Seq<Seq<u8>>) -> Seq<u8> {
    name + seq![LPAREN] + comma_joined(parts) + seq![RPAREN]
}

/// The UTF-8 bytes of an entry named `name` with canonical parameter type
/// strings `params`.
pub open spec fn entry_preimage(name: Seq<char>, params: Seq<Seq<char>>) -> Seq<u8> {
    signature_preimage(encode_utf8(name), params.map_values(|p: Seq<char>| encode_utf8(p)))
}

/// One event of a contract schema: its name and the canonical string form
/// of each parameter type, in order.
pub struct EventDescription {
    pub name: String,
    pub param_types: Vec<String>,
}

/// One externally callable function of a contract schema.
pub struct FunctionDescription {
    pub name: String,
    pub param_types: Vec<String>,
}

/// Appends `s` to `out` and returns the result.
fn append_bytes(out: Vec<u8>, s: &[u8]) -> (r: Vec<u8>)
    ensures
        r@ == out@ + s@,
{
    let mut out = out;
    let ghost orig: Seq<u8> = out@;
    let n = s.len();
    let mut i: usize = 0;
    while i < n
        invariant
            i <= n,
            n == s@.len(),
            out@ == orig + s@.take(i as int),
        decreases n - i,
    {
        out.push(s[i]);
        proof {
            assert(s@.take(i + 1) =~= s@.take(i as int).push(s@[i as int]));
        }
        i += 1;
    }
    proof {
        assert(s@.take(n as int) =~= s@);
    }
    out
}

/// Builds the canonical preimage `name(type1,...)` for a name and parameter
/// type list.
fn build_preimage(name: &String, param_types: &Vec<String>) -> (r: Vec<u8>)
    ensures
        r@ == entry_preimage(name@, param_types@.map_values(|p: String| p@)),
{
    let ghost parts: Seq<Seq<u8>> = param_types@.map_values(|p: String| encode_utf8(p@));
    let mut out: Vec<u8> = Vec::new();
    out = append_bytes(out, name.as_str().as_bytes());
    out.push(LPAREN);
    let ghost head: Seq<u8> = encode_utf8(name@) + seq![LPAREN];
    let n = param_types.len();
    let mut i: usize = 0;
    while i < n
        invariant
            i <= n,
            n == param_types@.len(),
            parts == param_types@.map_values(|p: String| encode_utf8(p@)),
            head == encode_utf8(name@) + seq![LPAREN],
            out@ == head + comma_joined(parts.take(i as int)),
        decreases n - i,
    {
        if i > 0 {
            out.push(COMMA);
        }
        out = append_bytes(out, param_types[i].as_str().as_bytes());
        proof {
            let taken = parts.take(i + 1);
            assert(taken.drop_last() =~= parts.take(i as int));
            assert(taken.last() == parts[i as int]);
            if i == 0 {
                assert(comma_joined(taken) == parts[0]);
                assert(out@ =~= head + comma_joined(taken));
            } else {
                assert(comma_joined(taken) == comma_joined(parts.take(i as int)) + seq![COMMA]
                    + parts[i as int]);
                assert(out@ =~= head + comma_joined(taken));
            }
        }
        i += 1;
    }
    out.push(RPAREN);
    proof {
        assert(parts.take(n as int) =~= parts);
        assert(parts == param_types@.map_values(|p: String| p@).map_values(
            |p: Seq<char>| encode_utf8(p),
        )) by {
            assert(parts =~= param_types@.map_values(|p: String| p@).map_values(
                |p: Seq<char>| encode_utf8(p),
            ));
        }
        assert(out@ =~= entry_preimage(name@, param_types@.map_values(|p: String| p@)));
    }
    out
}

impl EventDescription {
    /// The spec-level topic of this event.
    pub open spec fn spec_signature(&self) -> Seq<u8> {
        keccak256_of(entry_preimage(self.name@, self.param_types@.map_values(|p: String| p@)))
    }

    /// The event's topic: the keccak hash of its canonical signature.
    pub fn signature(&self) -> (r: H256)
        ensures
            r@ == self.spec_signature(),
    {
        let pre = build_preimage(&self.name, &self.param_types);
        H256::new(keccak256(&pre))
    }
}

impl FunctionDescription {
    /// The spec-level full selector hash of this function.
    pub open spec fn spec_signature(&self) -> Seq<u8> {
        keccak256_of(entry_preimage(self.name@, self.param_types@.map_values(|p: String| p@)))
    }

    /// The function's short selector: the first four bytes of the keccak
    /// hash of its canonical signature.
    pub fn short_signature(&self) -> (r: [u8; 4])
        ensures
            r@ == self.spec_signature().take(4),
    {
        let pre = build_preimage(&self.name, &self.param_types);
        let digest = keccak256(&pre);
        let r = [digest[0], digest[1], digest[2], digest[3]];
        proof {
            assert(r@ =~= self.spec_signature().take(4));
        }
        r
    }
}

/// A contract schema: the events and functions a processor may look up.
pub struct ContractSchema {
    pub events: Vec<EventDescription>,
    pub functions: Vec<FunctionDescription>,
}

/// The first event in `events` named `name`, if any.
pub open spec fn find_event(events: Seq<EventDescription>, name: Seq<char>) -> Option<
    EventDescription,
>
    decreases events.len(),
{
    if events.len() == 0 {
        None
    } else if events[0].name@ == name {
        Some(events[0])
    } else {
        find_event(events.drop_first(), name)
    }
}

/// The first function in `functions` named `name`, if any.
pub open spec fn find_function(functions: Seq<FunctionDescription>, name: Seq<char>) -> Option<
    FunctionDescription,
>
    decreases functions.len(),
{
    if functions.len() == 0 {
        None
    } else if functions[0].name@ == name {
        Some(functions[0])
    } else {
        find_function(functions.drop_first(), name)
    }
}

/// Character-wise string equality, usable from verified code.
pub fn str_eq(a: &str, b: &str) -> (r: bool)
    ensures
        r == (a@ == b@),
{
    let na = a.unicode_len();
    let nb = b.unicode_len();
    if na != nb {
        return false;
    }
    let mut i: usize = 0;
    while i < na
        invariant
            i <= na,
            na == a@.len(),
            na == b@.len(),
            forall|j: int| 0 <= j < i ==> a@[j] == b@[j],
        decreases na - i,
    {
        if a.get_char(i) != b.get_char(i) {
            return false;
        }
        i += 1;
    }
    proof {
        assert(a@ =~= b@);
    }
    true
}

impl ContractSchema {
    /// Looks up the first event with the given name.
    pub fn event(&self, name: &str) -> (r: Option<&EventDescription>)
        ensures
            match r {
                Some(e) => find_event(self.events@, name@) == Some(*e),
                None => find_event(self.events@, name@) is None,
            },
    {
        let n = self.events.len();
        let mut i: usize = 0;
        proof {
            assert(self.events@.skip(0) =~= self.events@);
        }
        while i < n
            invariant
                i <= n,
                n == self.events@.len(),
                find_event(self.events@, name@) == find_event(self.events@.skip(i as int), name@),
            decreases n - i,
        {
            if str_eq(self.events[i].name.as_str(), name) {
                proof {
                    assert(self.events@.skip(i as int)[0] == self.events@[i as int]);
                }
                return Some(&self.events[i]);
            }
            proof {
                assert(self.events@.skip(i as int).drop_first() =~= self.events@.skip(i + 1));
            }
            i += 1;
        }
        proof {
            assert(self.events@.skip(n as int).len() == 0);
        }
        None
    }

    /// Looks up the first function with the given name.
    pub fn function(&self, name: &str) -> (r: Option<&FunctionDescription>)
        ensures
            match r {
                Some(f) => find_function(self.functions@, name@) == Some(*f),
                None => find_function(self.functions@, name@) is None,
            },
    {
        let n = self.functions.len();
        let mut i: usize = 0;
        proof {
            assert(self.functions@.skip(0) =~= self.functions@);
        }
        while i < n
            invariant
                i <= n,
                n == self.functions@.len(),
                find_function(self.functions@, name@) == find_function(
                    self.functions@.skip(i as int),
                    name@,
                ),
            decreases n - i,
        {
            if str_eq(self.functions[i].name.as_str(), name) {
                proof {
                    assert(self.functions@.skip(i as int)[0] == self.functions@[i as int]);
                }
                return Some(&self.functions[i]);
            }
            proof {
                assert(self.functions@.skip(i as int).drop_first() =~= self.functions@.skip(i + 1));
            }
            i += 1;
        }
        proof {
            assert(self.functions@.skip(n as int).len() == 0);
        }
        None
    }
}

} // verus!
