//! Where state is kept. A path is a sequence of bytes.
use vstd::prelude::*;
use vstd::string::*;
use vstd::utf8::*;
use crate::error::Error;

verus! {

/// The byte between the components of a path.
pub const SEPARATOR: u8 = 47;

/// `name` below `dir`.
pub open spec fn below(dir: Seq<u8>, name: Seq<u8>) -> Seq<u8> {
    if dir.len() == 0 || dir.last() == SEPARATOR {
        dir + name
    } else {
        dir.push(SEPARATOR) + name
    }
}

/// Whether a path starts at the root.
pub open spec fn is_absolute(path: Seq<u8>) -> bool {
    path.len() > 0 && path.first() == SEPARATOR
}

fn join(dir: Vec<u8>, name: Vec<u8>) -> (path: Vec<u8>)
    ensures
        path@ == below(dir@, name@),
{
    let mut path = dir;
    let mut name = name;
    if path.len() > 0 && path[path.len() - 1] != SEPARATOR {
        path.push(SEPARATOR);
    }
    path.append(&mut name);
    path
}

/// Where state would be kept, absolute or not: where the first of the three
/// variables says that is set.
pub open spec fn chosen_dir(
    own: Option<Vec<u8>>,
    state_home: Option<Vec<u8>>,
    home: Option<Vec<u8>>,
) -> Option<Seq<u8>> {
    if own is Some {
        Some(own->0@)
    } else if state_home is Some {
        Some(below(state_home->0@, encode_utf8("plz"@)))
    } else if home is Some {
        Some(below(home->0@, encode_utf8(".local/state/plz"@)))
    } else {
        None
    }
}

/// The state directory, by the variables `PLZ_STATE_DIR`, `XDG_STATE_HOME` and
/// `HOME`.
pub fn state_dir(own: Option<Vec<u8>>, state_home: Option<Vec<u8>>, home: Option<Vec<u8>>) -> (dir:
    Result<Vec<u8>, Error>)
    ensures
        match chosen_dir(own, state_home, home) {
            None => dir == Err::<Vec<u8>, Error>(Error::HomeUnset),
            Some(chosen) => if is_absolute(chosen) {
                dir matches Ok(dir) && dir@ == chosen
            } else {
                dir == Err::<Vec<u8>, Error>(Error::StateDirRelative)
            },
        },
{
    let dir = match own {
        Some(dir) => dir,
        None => match state_home {
            Some(dir) => join(dir, "plz".as_bytes_vec()),
            None => match home {
                Some(dir) => join(dir, ".local/state/plz".as_bytes_vec()),
                None => {
                    return Err(Error::HomeUnset);
                },
            },
        },
    };
    if dir.len() == 0 || dir[0] != SEPARATOR {
        return Err(Error::StateDirRelative);
    }
    Ok(dir)
}

/// Whether state may be kept in what lies at the path: a directory, and no link
/// to one, that belongs to the user.
pub fn check_owner(is_dir: bool, owner: u32, user: u32) -> (result: Result<(), Error>)
    ensures
        result == (if is_dir && owner == user {
            Ok(())
        } else {
            Err(Error::StateDirForeign)
        }),
{
    if !is_dir || owner != user {
        return Err(Error::StateDirForeign);
    }
    Ok(())
}

/// A path below a directory is the directory, a separator unless the directory ends
/// with one or is empty, and the name.
pub proof fn path_below_keeps_both(dir: Seq<u8>, name: Seq<u8>)
    ensures
        ({
            let path = below(dir, name);
            let between = path.len() - dir.len() - name.len();
            &&& dir.is_prefix_of(path)
            &&& name.is_suffix_of(path)
            &&& between == 0 || between == 1
            &&& between == 1 <==> dir.len() > 0 && dir.last() != 47
            &&& between == 1 ==> path[dir.len() as int] == 47
        }),
{
    let path = below(dir, name);
    assert(path.take(dir.len() as int) =~= dir);
    assert(path.skip(path.len() - name.len()) =~= name);
}

/// The program's own variable decides alone where it is set, and then the directory
/// is just that; else the one for state homes decides; else the home directory. A
/// path is absolute if and only if it starts with a slash.
pub proof fn first_variable_that_is_set_decides(
    dir: Vec<u8>,
    own: Option<Vec<u8>>,
    state_home: Option<Vec<u8>>,
    home: Option<Vec<u8>>,
    path: Seq<u8>,
)
    ensures
        chosen_dir(Some(dir), state_home, home) == Some(dir@),
        chosen_dir(None, Some(dir), home) == Some(below(dir@, seq![112u8, 108, 122])),
        chosen_dir(None, None, Some(dir)) == Some(
            below(
                dir@,
                seq![46u8, 108, 111, 99, 97, 108, 47, 115, 116, 97, 116, 101, 47, 112, 108, 122],
            ),
        ),
        chosen_dir(own, state_home, home) is None <==> own is None && state_home is None && home
            is None,
        is_absolute(path) <==> path.len() > 0 && path[0] == 47,
{
    reveal_strlit("plz");
    reveal_strlit(".local/state/plz");
    is_ascii_chars_encode_utf8("plz"@);
    is_ascii_chars_encode_utf8(".local/state/plz"@);
    assert(encode_utf8("plz"@) =~= seq![112u8, 108, 122]);
    assert(encode_utf8(".local/state/plz"@) =~= seq![
        46u8, 108, 111, 99, 97, 108, 47, 115, 116, 97, 116, 101, 47, 112, 108, 122,
    ]);
}

} // verus!
