//! What is settled before a command touches a plan: superuser privilege, and
//! getting the running executable out of the way.
//!
//! An install leaves a copy of the installer inside the tree that an
//! uninstall removes. When that very copy is asked to uninstall, it first
//! copies itself to a temporary file with a random name and carries on from
//! there, so that the file being removed is never the file being run.

use rand::Rng;
use vstd::prelude::*;
use vstd::utf8::encode_utf8;
use crate::description::texts;
use crate::error::{ErrorView, HarmonicError};

verus! {

/// Where an install leaves its copy of the installer.
pub const INSTALL_LOCATION: &'static str = "/nix/nix-installer";

/// How many characters the random part of the temporary name has.
pub const TRAILER_LEN: usize = 16;

/// How many characters there are to draw from.
pub const CHARSET_LEN: usize = 62;

/// The characters the random part of the temporary name is drawn from.
pub open spec fn charset() -> Seq<char> {
    "ABCDEFGHIJKLMNOPQRSTUVWXYZabcdefghijklmnopqrstuvwxyz0123456789"@
}

/// The text that a list of positions in the character set spells out.
pub open spec fn spell(indices: Seq<usize>) -> Seq<char> {
    indices.map_values(|i: usize| charset()[i as int])
}

/// Whether every index is a position in the character set.
pub open spec fn in_charset(indices: Seq<usize>) -> bool {
    forall|k: int| 0 <= k < indices.len() ==> (#[trigger] indices[k]) < charset().len()
}

/// Whether `text` can be the random part of a temporary name.
pub open spec fn is_trailer(text: Seq<char>) -> bool {
    &&& text.len() == TRAILER_LEN
    &&& forall|k: int| 0 <= k < text.len() ==> charset().contains(#[trigger] text[k])
}

/// The name of the temporary copy.
pub open spec fn temp_name(trailer: Seq<char>) -> Seq<char> {
    "nix-installer-"@ + trailer
}

/// Whether the text, as the bytes of a string, holds a zero byte. Such text
/// cannot be handed to the operating system as an argument or a path.
pub open spec fn has_nul(text: Seq<char>) -> bool {
    encode_utf8(text).contains(0u8)
}

/// Whether any of the texts holds a zero byte.
pub open spec fn any_has_nul(texts: Seq<Seq<char>>) -> bool {
    exists|k: int| 0 <= k < texts.len() && has_nul(#[trigger] texts[k])
}

/// Lets a command go on only with superuser privilege.
pub fn ensure_root(is_root: bool) -> (r: Result<(), HarmonicError>)
    ensures
        r is Ok <==> is_root,
        r is Err ==> r->Err_0@ == ErrorView::RootRequired,
{
    if is_root {
        Ok(())
    } else {
        Err(HarmonicError::RootRequired)
    }
}

/// Whether the running executable, as far as its path can be told, is the
/// copy that an install left behind.
pub fn runs_from_install_location(current_exe: &Option<String>) -> (there: bool)
    ensures
        there == (current_exe matches Some(path) && path@ == INSTALL_LOCATION@),
{
    match current_exe {
        Some(path) => {
            let location = String::from_str(INSTALL_LOCATION);
            *path == location
        },
        None => false,
    }
}

/// The thread's random number generator of the `rand` crate. The library
/// hands it on and never looks inside.
#[verifier::external_type_specification]
#[verifier::external_body]
pub struct ExThreadRng(rand::rngs::ThreadRng);

/// `rand::thread_rng` hands out the generator of the current thread. Nothing
/// is claimed of it. The generator is seeded by the operating system and does
/// not start where the system provides no randomness.
pub assume_specification[ rand::thread_rng ]() -> (rng: rand::rngs::ThreadRng);

/// Draws a number below `bound` with `Rng::gen_range` on `0..bound`.
///
/// Believed of `gen_range`: it panics on an empty range, which `requires`
/// rules out, and otherwise returns a value inside the range. Nothing else is
/// claimed of the value; two draws may differ.
#[verifier::external_body]
fn draw_below(rng: &mut rand::rngs::ThreadRng, bound: usize) -> (index: usize)
    requires
        bound > 0,
    ensures
        index < bound,
{
    rng.gen_range(0..bound)
}

/// Spells out the characters at the given positions of the character set.
/// `None` if a position lies outside of it.
pub fn trailer_from(indices: &Vec<usize>) -> (trailer: Option<String>)
    ensures
        trailer is Some <==> in_charset(indices@),
        trailer is Some ==> trailer->0@ == spell(indices@),
{
    let letters = "ABCDEFGHIJKLMNOPQRSTUVWXYZabcdefghijklmnopqrstuvwxyz0123456789";
    proof {
        reveal_strlit("ABCDEFGHIJKLMNOPQRSTUVWXYZabcdefghijklmnopqrstuvwxyz0123456789");
    }
    let mut out = String::new();
    let n = indices.len();
    let mut k: usize = 0;
    while k < n
        invariant
            k <= n,
            n == indices.len(),
            letters@ == charset(),
            charset().len() == CHARSET_LEN,
            in_charset(indices@.take(k as int)),
            out@ == spell(indices@.take(k as int)),
        decreases n - k,
    {
        let index = indices[k];
        if index >= CHARSET_LEN {
            return None;
        }
        let letter = letters.substring_char(index, index + 1);
        assert(letter@ =~= seq![charset()[index as int]]);
        out.append(letter);
        assert(indices@.take(k + 1) =~= indices@.take(k as int).push(index));
        k += 1;
    }
    assert(indices@.take(n as int) =~= indices@);
    Some(out)
}

/// Draws the random part of a temporary name.
pub fn random_trailer() -> (trailer: String)
    ensures
        is_trailer(trailer@),
{
    proof {
        reveal_strlit("ABCDEFGHIJKLMNOPQRSTUVWXYZabcdefghijklmnopqrstuvwxyz0123456789");
    }
    let mut rng = rand::thread_rng();
    let mut indices: Vec<usize> = Vec::new();
    let mut k: usize = 0;
    while k < TRAILER_LEN
        invariant
            k <= TRAILER_LEN,
            indices.len() == k,
            charset().len() == CHARSET_LEN,
            in_charset(indices@),
        decreases TRAILER_LEN - k,
    {
        let index = draw_below(&mut rng, CHARSET_LEN);
        indices.push(index);
        k += 1;
    }
    match trailer_from(&indices) {
        Some(trailer) => {
            assert forall|i: int| 0 <= i < trailer@.len() implies charset().contains(
                #[trigger] trailer@[i],
            ) by {
                assert(trailer@[i] == charset()[indices@[i] as int]);
            }
            trailer
        },
        None => unreached(),
    }
}

/// The file name of the temporary copy with the given random part.
pub fn temp_executable_name(trailer: &str) -> (name: String)
    ensures
        name@ == temp_name(trailer@),
{
    let mut name = String::from_str("nix-installer-");
    name.append(trailer);
    name
}

/// Whether the string holds a zero byte.
pub fn contains_nul(text: &str) -> (found: bool)
    ensures
        found == has_nul(text@),
{
    let bytes = text.as_bytes();
    let n = bytes.len();
    let mut i: usize = 0;
    while i < n
        invariant
            i <= n,
            n == bytes@.len(),
            bytes@ == encode_utf8(text@),
            forall|j: int| 0 <= j < i ==> bytes@[j] != 0u8,
        decreases n - i,
    {
        if bytes[i] == 0 {
            return true;
        }
        i += 1;
    }
    false
}

/// Whether any of the strings holds a zero byte.
pub fn any_contains_nul(strings: &Vec<String>) -> (found: bool)
    ensures
        found == any_has_nul(texts(strings@)),
{
    let n = strings.len();
    let mut k: usize = 0;
    while k < n
        invariant
            k <= n,
            n == strings.len(),
            forall|j: int| 0 <= j < k ==> !has_nul(#[trigger] texts(strings@)[j]),
        decreases n - k,
    {
        if contains_nul(strings[k].as_str()) {
            assert(has_nul(texts(strings@)[k as int]));
            return true;
        }
        k += 1;
    }
    false
}

} // verus!
