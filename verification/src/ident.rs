//! Identifiers of entities: short random strings over a URL-friendly alphabet.

use vstd::prelude::*;

verus! {

/// The symbols an identifier is made of: `_`, `-`, digits and ASCII letters.
pub open spec fn is_id_symbol(c: char) -> bool {
    ||| c == '_'
    ||| c == '-'
    ||| ('0' <= c && c <= '9')
    ||| ('a' <= c && c <= 'z')
    ||| ('A' <= c && c <= 'Z')
}

/// An identifier of `length` symbols.
pub open spec fn well_formed_id(id: Seq<char>, length: nat) -> bool {
    &&& id.len() == length
    &&& forall|i: int| 0 <= i < id.len() ==> is_id_symbol(#[trigger] id[i])
}

/// Draws a fresh identifier of `length` symbols.
///
/// Calls `nanoid::format` with the generator `nanoid::rngs::default` and the
/// alphabet `nanoid::alphabet::SAFE`.  Trusted: the result has exactly `length`
/// characters, each of them from that alphabet.  Which characters is left
/// open: they are random.  A `length` of zero is excluded because `format`
/// then never returns, and one whose eightfold overflows because `format`
/// computes it.  The generator draws on the operating system's entropy and
/// gives up where there is none to be had.
#[verifier::external_body]
pub(crate) fn random_id(length: usize) -> (id: String)
    requires
        0 < length,
        8 * length <= usize::MAX,
    ensures
        well_formed_id(id@, length as nat),
{
    nanoid::format(nanoid::rngs::default, &nanoid::alphabet::SAFE, length)
}

} // verus!
