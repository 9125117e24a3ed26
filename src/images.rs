//! Which of the images an instance needs are still to be pulled.
use vstd::prelude::*;
use crate::text::strings_view;

verus! {

/// Whether `pat` occurs in `s` as a run of consecutive characters.
pub open spec fn occurs_in(pat: Seq<char>, s: Seq<char>) -> bool {
    exists|i: int| 0 <= i <= s.len() - pat.len() && #[trigger] s.subrange(i, i + pat.len()) == pat
}

/// Relies on `str::contains` with a `&str` pattern: true exactly when `pat`
/// occurs in `s`.
#[verifier::external_body]
fn text_contains(s: &str, pat: &str) -> (r: bool)
    ensures
        r == occurs_in(pat@, s@),
{
    s.contains(pat)
}

/// An image is present when one of the local tags mentions its name.
pub open spec fn image_present(tags: Seq<Seq<char>>, name: Seq<char>) -> bool {
    exists|j: int| 0 <= j < tags.len() && occurs_in(name, #[trigger] tags[j])
}

/// The wanted images that no local tag mentions, in order.
pub open spec fn missing(wanted: Seq<Seq<char>>, tags: Seq<Seq<char>>) -> Seq<Seq<char>>
    decreases wanted.len(),
{
    if wanted.len() == 0 {
        Seq::empty()
    } else {
        let rest = missing(wanted.drop_last(), tags);
        if image_present(tags, wanted.last()) {
            rest
        } else {
            rest.push(wanted.last())
        }
    }
}

/// Whether some tag among `tags` mentions `image_name`.
pub fn image_exists(tags: &Vec<String>, image_name: &str) -> (r: bool)
    ensures
        r == image_present(strings_view(tags@), image_name@),
{
    let ghost ts = strings_view(tags@);
    let mut j: usize = 0;
    while j < tags.len()
        invariant
            j <= tags.len(),
            ts == strings_view(tags@),
            forall|k: int| 0 <= k < j ==> !occurs_in(image_name@, #[trigger] ts[k]),
        decreases tags.len() - j,
    {
        if text_contains(tags[j].as_str(), image_name) {
            assert(occurs_in(image_name@, ts[j as int]));
            return true;
        }
        j = j + 1;
    }
    false
}

/// The images among `wanted` to pull, given the tags of the local images.
pub fn images_to_pull(wanted: &Vec<String>, tags: &Vec<String>) -> (r: Vec<String>)
    ensures
        strings_view(r@) == missing(strings_view(wanted@), strings_view(tags@)),
{
    let ghost ws = strings_view(wanted@);
    let mut r: Vec<String> = Vec::new();
    let mut i: usize = 0;
    while i < wanted.len()
        invariant
            i <= wanted.len(),
            ws == strings_view(wanted@),
            strings_view(r@) == missing(ws.take(i as int), strings_view(tags@)),
        decreases wanted.len() - i,
    {
        assert(ws.take(i + 1).drop_last() =~= ws.take(i as int));
        assert(ws.take(i + 1).last() == wanted@[i as int]@);
        if !image_exists(tags, wanted[i].as_str()) {
            let x = wanted[i].clone();
            let ghost prev = r@;
            r.push(x);
            assert(strings_view(r@) =~= strings_view(prev).push(x@));
        }
        i = i + 1;
    }
    assert(ws.take(i as int) =~= ws);
    r
}

} // verus!
