//! Paths as text: joining a name to a directory, and the extension of a file
//! name.

use vstd::prelude::*;

verus! {

/// The character that separates the components of a path.
pub const SEPARATOR: char = '/';

/// `name` resolved against the directory `base`.
///
/// A name that starts at the root stands for itself. Any other name is
/// appended to the base, after a separator unless the base is empty or ends
/// with one already.
pub open spec fn joined(base: Seq<char>, name: Seq<char>) -> Seq<char> {
    if name.len() > 0 && name[0] == SEPARATOR {
        name
    } else if base.len() > 0 && base.last() != SEPARATOR {
        base + seq![SEPARATOR] + name
    } else {
        base + name
    }
}

/// Resolves `name` against the directory `base`.
pub fn join(base: &str, name: &str) -> (path: String)
    ensures
        path@ == joined(base@, name@),
{
    let name_len: usize = name.unicode_len();
    if name_len > 0 && name.get_char(0) == SEPARATOR {
        return name.to_owned();
    }
    let base_len: usize = base.unicode_len();
    let mut path = base.to_owned();
    if base_len > 0 && base.get_char(base_len - 1) != SEPARATOR {
        proof {
            reveal_strlit("/");
        }
        path.append("/");
    }
    path.append(name);
    path
}

/// The position of the last dot in `name`, if there is one.
pub open spec fn last_dot(name: Seq<char>) -> Option<int>
    decreases name.len(),
{
    if name.len() == 0 {
        None
    } else if name.last() == '.' {
        Some(name.len() - 1)
    } else {
        last_dot(name.drop_last())
    }
}

/// The extension of a file name: what follows its last dot.
///
/// A name without a dot has no extension. Neither has a name whose only dot
/// is its first character, nor the name `..`.
pub open spec fn extension_of(name: Seq<char>) -> Option<Seq<char>> {
    match last_dot(name) {
        Some(dot) if dot > 0 && name != seq!['.', '.'] => Some(
            name.subrange(dot + 1, name.len() as int),
        ),
        _ => None,
    }
}

/// The extension that marks a file as still being written.
pub open spec fn partial_marker() -> Seq<char> {
    seq!['p', 'a', 'r', 't']
}

/// `last_dot` finds a dot that no other dot follows, and finds one whenever
/// the name holds a dot at all.
pub proof fn lemma_last_dot(name: Seq<char>)
    ensures
        match last_dot(name) {
            Some(dot) => {
                &&& 0 <= dot < name.len()
                &&& name[dot] == '.'
                &&& forall|i: int| dot < i < name.len() ==> name[i] != '.'
            },
            None => forall|i: int| 0 <= i < name.len() ==> name[i] != '.',
        },
    decreases name.len(),
{
    if name.len() > 0 && name.last() != '.' {
        let front = name.drop_last();
        lemma_last_dot(front);
        assert(forall|i: int| 0 <= i < front.len() ==> front[i] == name[i]);
    }
}

/// A file name has the partial marker for its extension exactly if it ends
/// with a dot and the marker, and something stands before that dot.
pub proof fn lemma_partial_extension_is_a_suffix(name: Seq<char>)
    ensures
        extension_of(name) == Some(partial_marker()) <==> name.len() > 5 && name.subrange(
            name.len() - 5,
            name.len() as int,
        ) == seq!['.'] + partial_marker(),
{
    let len = name.len() as int;
    let suffix = name.subrange(len - 5, len);
    lemma_last_dot(name);
    if len > 5 && suffix == seq!['.'] + partial_marker() {
        assert(name[len - 5] == suffix[0] && name[len - 4] == suffix[1] && name[len - 3]
            == suffix[2] && name[len - 2] == suffix[3] && name[len - 1] == suffix[4]);
        assert(name.subrange(len - 4, len) =~= partial_marker());
    }
    if extension_of(name) == Some(partial_marker()) {
        let dot = last_dot(name).unwrap();
        let extension = name.subrange(dot + 1, len);
        assert(extension.len() == 4);
        assert(suffix =~= seq!['.'] + partial_marker());
    }
}

/// Whether the extension of the file name `name` is the partial marker.
pub fn has_partial_extension(name: &str) -> (partial: bool)
    ensures
        partial == (extension_of(name@) == Some(partial_marker())),
{
    let len: usize = name.unicode_len();
    proof {
        lemma_partial_extension_is_a_suffix(name@);
    }
    if len <= 5 {
        return false;
    }
    let dot: usize = len - 5;
    let partial = name.get_char(dot) == '.' && name.get_char(dot + 1) == 'p' && name.get_char(
        dot + 2,
    ) == 'a' && name.get_char(dot + 3) == 'r' && name.get_char(dot + 4) == 't';
    proof {
        let suffix = name@.subrange(len - 5, len as int);
        if partial {
            assert(suffix =~= seq!['.'] + partial_marker());
        } else if suffix == seq!['.'] + partial_marker() {
            assert(suffix[0] == '.' && suffix[1] == 'p' && suffix[2] == 'a' && suffix[3] == 'r'
                && suffix[4] == 't');
        }
    }
    partial
}

} // verus!
