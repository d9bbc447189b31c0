//! Names of the AVIF files that the pipeline writes.

use vstd::prelude::*;

use crate::ocr::push_char;

verus! {

/// Names what std's `Path::file_name` gives for a path written as a string:
/// its last component, unless the path ends in `..` or has no component.
pub uninterp spec fn path_file_name(path: Seq<char>) -> Option<Seq<char>>;

/// Calls `std::path::Path::file_name` on `path` and copies the characters of
/// the name. The contract claims only that the result is the named
/// `path_file_name` of the path.
#[verifier::external_body]
fn file_name_of(path: &str) -> (name: Option<Vec<char>>)
    ensures
        name is None <==> path_file_name(path@) is None,
        name matches Some(n) ==> path_file_name(path@) == Some(n@),
{
    match std::path::Path::new(path).file_name() {
        Some(n) => Some(n.to_string_lossy().chars().collect()),
        None => None,
    }
}

/// The characters of `.avif`.
pub open spec fn avif_suffix() -> Seq<char> {
    seq!['.', 'a', 'v', 'i', 'f']
}

/// Whether `i` is the position of the last `.` of `name`, and not its first
/// character.
pub open spec fn is_stem_end(name: Seq<char>, i: int) -> bool {
    &&& 0 < i < name.len()
    &&& name[i] == '.'
    &&& forall|j: int| i < j < name.len() ==> name[j] != '.'
}

/// What `set_extension("avif")` makes of a file name: the part before its
/// last `.` (where that `.` does not start the name), or else the whole name,
/// followed by `.avif`.
pub open spec fn with_avif_extension(name: Seq<char>) -> Seq<char> {
    if exists|i: int| is_stem_end(name, i) {
        name.take(choose|i: int| is_stem_end(name, i)) + avif_suffix()
    } else {
        name + avif_suffix()
    }
}

/// Where the stem of a file name ends: at its last `.` past the first
/// character, or at its end where there is none.
fn stem_end(name: &Vec<char>) -> (end: usize)
    ensures
        end <= name.len(),
        end < name.len() ==> is_stem_end(name@, end as int),
        end == name.len() ==> forall|i: int| !is_stem_end(name@, i),
{
    let mut k: usize = name.len();
    while k > 1
        invariant
            k <= name.len(),
            forall|j: int| k <= j < name.len() ==> name@[j] != '.',
        decreases k,
    {
        if name[k - 1] == '.' {
            return k - 1;
        }
        k = k - 1;
    }
    assert forall|i: int| !is_stem_end(name@, i) by {
        if 0 < i < name@.len() && name@[i] == '.' {
            assert(i >= k);
        }
    }
    name.len()
}

/// The name of the AVIF file for the picture at `path`: the picture's file
/// name with its extension set to `avif`; `None` where the path has no file
/// name.
pub fn avif_file_name(path: &str) -> (avif: Option<String>)
    ensures
        avif is None <==> path_file_name(path@) is None,
        avif matches Some(a) ==> a@ == with_avif_extension(path_file_name(path@).unwrap()),
{
    let name = match file_name_of(path) {
        Some(n) => n,
        None => { return None; },
    };
    let ghost n = name@;
    let end = stem_end(&name);
    let mut avif = String::new();
    let mut i: usize = 0;
    while i < end
        invariant
            n == name@,
            end <= name.len(),
            i <= end,
            avif@ == n.take(i as int),
        decreases end - i,
    {
        push_char(&mut avif, name[i]);
        assert(n.take(i + 1) == n.take(i as int).push(n[i as int]));
        i = i + 1;
    }
    let ghost stem = avif@;
    push_char(&mut avif, '.');
    push_char(&mut avif, 'a');
    push_char(&mut avif, 'v');
    push_char(&mut avif, 'i');
    push_char(&mut avif, 'f');
    assert(avif@ == stem + avif_suffix());
    assert(n.take(n.len() as int) == n);
    Some(avif)
}

/// A `.` past the first character of a name is followed by a last one.
proof fn lemma_dot_has_last(name: Seq<char>, j: int)
    requires
        0 < j < name.len(),
        name[j] == '.',
    ensures
        exists|i: int| is_stem_end(name, i),
    decreases name.len() - j,
{
    if forall|q: int| j < q < name.len() ==> name[q] != '.' {
        assert(is_stem_end(name, j));
    } else {
        let q = choose|q: int| j < q < name.len() && name[q] == '.';
        lemma_dot_has_last(name, q);
    }
}

/// The AVIF name is the file name's stem followed by `.avif`: the stem is
/// the name up to its last `.` (one that does not start the name), or the
/// whole name where there is no such `.`.
pub proof fn law_avif_name_is_stem_and_suffix(name: Seq<char>, avif: Seq<char>)
    requires
        avif == with_avif_extension(name),
    ensures
        avif.len() >= 5,
        avif == avif.take(avif.len() - 5) + seq!['.', 'a', 'v', 'i', 'f'],
        ({
            let stem = avif.take(avif.len() - 5);
            &&& stem.len() <= name.len()
            &&& name.take(stem.len() as int) == stem
            &&& stem.len() == name.len() ==> forall|j: int| 0 < j < name.len() ==> name[j] != '.'
            &&& stem.len() < name.len() ==> (stem.len() > 0 && name[stem.len() as int] == '.'
                && forall|j: int| stem.len() < j < name.len() ==> name[j] != '.')
        }),
{
    if exists|i: int| is_stem_end(name, i) {
        let i = choose|i: int| is_stem_end(name, i);
        assert(avif == name.take(i) + avif_suffix());
        assert(avif.take(avif.len() - 5) =~= name.take(i));
        assert(avif =~= avif.take(avif.len() - 5) + seq!['.', 'a', 'v', 'i', 'f']);
    } else {
        assert(avif == name + avif_suffix());
        assert(avif.take(avif.len() - 5) =~= name);
        assert(avif =~= avif.take(avif.len() - 5) + seq!['.', 'a', 'v', 'i', 'f']);
        assert(name.take(name.len() as int) =~= name);
        assert forall|j: int| 0 < j < name.len() implies name[j] != '.' by {
            if name[j] == '.' {
                lemma_dot_has_last(name, j);
            }
        }
    }
}

} // verus!
