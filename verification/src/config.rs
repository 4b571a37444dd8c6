//! Saved playlists: a name the user picks and the folder its tracks go to.

use vstd::prelude::*;

use crate::text::{eq_ignore_ascii_case, str_eq_ignore_ascii_case, str_trim, trimmed};

verus! {

#[derive(Clone, Debug)]
pub struct Playlist {
    pub name: String,
    pub path: String,
}

impl Default for Playlist {
    fn default() -> (p: Playlist)
        ensures
            p.name@ == Seq::<char>::empty(),
            p.path@ == Seq::<char>::empty(),
    {
        Playlist { name: String::new(), path: String::new() }
    }
}

/// What is saved between runs: the playlists, in the order they were added.
#[derive(Debug)]
pub struct Config {
    pub playlists: Vec<Playlist>,
}

impl Default for Config {
    fn default() -> (c: Config)
        ensures
            c.playlists@.len() == 0,
    {
        Config { playlists: Vec::new() }
    }
}

/// Why a new playlist was not added.
#[derive(Clone, Copy, Debug, PartialEq, Eq, Structural)]
pub enum PlaylistError {
    /// The name or the folder is empty once trimmed.
    MissingField,
    /// A playlist already has that name, ignoring ASCII case.
    NameTaken,
    /// The folder does not exist.
    MissingFolder,
}

/// The sentence shown for each reason a playlist is refused.
pub open spec fn error_message(e: PlaylistError) -> Seq<char> {
    match e {
        PlaylistError::MissingField => "Name and path are required"@,
        PlaylistError::NameTaken => "A playlist with that name already exists"@,
        PlaylistError::MissingFolder => "That folder doesn't exist"@,
    }
}

impl PlaylistError {
    /// The sentence shown under the form.
    pub fn message(&self) -> (r: &'static str)
        ensures
            r@ == error_message(*self),
    {
        match self {
            PlaylistError::MissingField => "Name and path are required",
            PlaylistError::NameTaken => "A playlist with that name already exists",
            PlaylistError::MissingFolder => "That folder doesn't exist",
        }
    }
}

/// Some playlist in `pl` is called `name`, ignoring ASCII case.
pub open spec fn name_taken(pl: Seq<Playlist>, name: Seq<char>) -> bool {
    exists|i: int| 0 <= i < pl.len() && eq_ignore_ascii_case(#[trigger] pl[i].name@, name)
}

/// No two playlists in `pl` have the same name, ignoring ASCII case.
pub open spec fn names_distinct(pl: Seq<Playlist>) -> bool {
    forall|i: int, j: int|
        0 <= i < pl.len() && 0 <= j < pl.len() && i != j ==> !eq_ignore_ascii_case(
            #[trigger] pl[i].name@,
            #[trigger] pl[j].name@,
        )
}

/// The error, if any, that adding a playlist with the typed `name` and
/// `path` meets before the folder is looked at: both are trimmed, both must
/// be non-empty, and the name must be free.
pub open spec fn new_playlist_error(pl: Seq<Playlist>, name: Seq<char>, path: Seq<char>) -> Option<
    PlaylistError,
> {
    if trimmed(name).len() == 0 || trimmed(path).len() == 0 {
        Some(PlaylistError::MissingField)
    } else if name_taken(pl, trimmed(name)) {
        Some(PlaylistError::NameTaken)
    } else {
        None
    }
}

/// A new playlist is refused only for a blank trimmed name or folder, or
/// for a trimmed name that some playlist already has ignoring ASCII case;
/// any other entry passes, whatever folders the playlists use. The missing
/// folder is never reported here.
pub proof fn lemma_new_playlist_refusals(pl: Seq<Playlist>, name: Seq<char>, path: Seq<char>)
    ensures
        new_playlist_error(pl, name, path) == Some(PlaylistError::MissingField) <==> (trimmed(
            name,
        ).len() == 0 || trimmed(path).len() == 0),
        new_playlist_error(pl, name, path) == Some(PlaylistError::NameTaken) <==> (trimmed(name).len()
            > 0 && trimmed(path).len() > 0 && exists|i: int|
            0 <= i < pl.len() && eq_ignore_ascii_case(#[trigger] pl[i].name@, trimmed(name))),
        new_playlist_error(pl, name, path) is None <==> (trimmed(name).len() > 0 && trimmed(path).len()
            > 0 && forall|i: int|
            0 <= i < pl.len() ==> !eq_ignore_ascii_case(#[trigger] pl[i].name@, trimmed(name))),
        new_playlist_error(pl, name, path) != Some(PlaylistError::MissingFolder),
{
}

/// Only the names of the saved playlists matter to the check: two lists
/// with the same names, in any folders, give the same answer.
pub proof fn lemma_new_playlist_ignores_folders(
    pl1: Seq<Playlist>,
    pl2: Seq<Playlist>,
    name: Seq<char>,
    path: Seq<char>,
)
    requires
        pl1.len() == pl2.len(),
        forall|i: int| 0 <= i < pl1.len() ==> (#[trigger] pl1[i]).name@ == pl2[i].name@,
    ensures
        new_playlist_error(pl1, name, path) == new_playlist_error(pl2, name, path),
{
    lemma_new_playlist_refusals(pl1, name, path);
    lemma_new_playlist_refusals(pl2, name, path);
    if exists|i: int| 0 <= i < pl1.len() && eq_ignore_ascii_case(#[trigger] pl1[i].name@, trimmed(name)) {
        let i = choose|i: int| 0 <= i < pl1.len() && eq_ignore_ascii_case(#[trigger] pl1[i].name@, trimmed(name));
        assert(eq_ignore_ascii_case(pl2[i].name@, trimmed(name)));
    }
    if exists|i: int| 0 <= i < pl2.len() && eq_ignore_ascii_case(#[trigger] pl2[i].name@, trimmed(name)) {
        let i = choose|i: int| 0 <= i < pl2.len() && eq_ignore_ascii_case(#[trigger] pl2[i].name@, trimmed(name));
        assert(pl1[i].name@ == pl2[i].name@);
    }
}

/// The folder of the first playlist called exactly `name`, or the empty
/// string when there is none.
pub open spec fn target_dir_of(pl: Seq<Playlist>, name: Seq<char>) -> Seq<char>
    decreases pl.len(),
{
    if pl.len() == 0 {
        Seq::<char>::empty()
    } else if pl[0].name@ == name {
        pl[0].path@
    } else {
        target_dir_of(pl.drop_first(), name)
    }
}

proof fn lemma_target_dir_step(pl: Seq<Playlist>, name: Seq<char>, i: int)
    requires
        0 <= i < pl.len(),
        pl[i].name@ != name,
    ensures
        target_dir_of(pl.skip(i), name) == target_dir_of(pl.skip(i + 1), name),
{
    assert(pl.skip(i).drop_first() =~= pl.skip(i + 1));
}

/// The folder looked up for `name` is that of the first playlist whose name
/// is exactly `name`, and the empty string when no playlist has that name.
pub proof fn lemma_target_dir_first_exact(pl: Seq<Playlist>, name: Seq<char>)
    ensures
        forall|k: int|
            0 <= k < pl.len() && (#[trigger] pl[k]).name@ == name && (forall|j: int|
                0 <= j < k ==> (#[trigger] pl[j]).name@ != name) ==> target_dir_of(pl, name)
                == pl[k].path@,
        (forall|j: int| 0 <= j < pl.len() ==> (#[trigger] pl[j]).name@ != name) ==> target_dir_of(
            pl,
            name,
        ) == Seq::<char>::empty(),
    decreases pl.len(),
{
    if pl.len() > 0 {
        let rest = pl.drop_first();
        lemma_target_dir_first_exact(rest, name);
        assert forall|k: int|
            0 <= k < pl.len() && (#[trigger] pl[k]).name@ == name && (forall|j: int|
                0 <= j < k ==> (#[trigger] pl[j]).name@ != name) implies target_dir_of(pl, name)
            == pl[k].path@ by {
            if k > 0 {
                assert(pl[0].name@ != name);
                assert(rest[k - 1] == pl[k]);
                assert forall|j: int| 0 <= j < k - 1 implies (#[trigger] rest[j]).name@ != name by {
                    assert(rest[j] == pl[j + 1]);
                }
            }
        }
        if forall|j: int| 0 <= j < pl.len() ==> (#[trigger] pl[j]).name@ != name {
            assert forall|j: int| 0 <= j < rest.len() implies (#[trigger] rest[j]).name@ != name by {
                assert(rest[j] == pl[j + 1]);
            }
        }
    }
}

impl Config {
    /// Whether some playlist is called `name`, ignoring ASCII case.
    pub fn has_name(&self, name: &str) -> (r: bool)
        ensures
            r == name_taken(self.playlists@, name@),
    {
        let n: usize = self.playlists.len();
        let mut i: usize = 0;
        while i < n
            invariant
                n == self.playlists.len(),
                0 <= i <= n,
                forall|j: int|
                    0 <= j < i ==> !eq_ignore_ascii_case(
                        #[trigger] self.playlists@[j].name@,
                        name@,
                    ),
            decreases n - i,
        {
            if str_eq_ignore_ascii_case(self.playlists[i].name.as_str(), name) {
                return true;
            }
            i = i + 1;
        }
        false
    }

    /// Checks a playlist typed into the form. Both fields are trimmed; the
    /// result is the playlist to add, or the first rule it breaks. Whether
    /// the folder exists is left to the caller.
    pub fn check_new_playlist(&self, name: &str, path: &str) -> (r: Result<Playlist, PlaylistError>)
        ensures
            r is Err <==> new_playlist_error(self.playlists@, name@, path@) is Some,
            r matches Err(e) ==> new_playlist_error(self.playlists@, name@, path@) == Some(e),
            r matches Ok(p) ==> p.name@ == trimmed(name@) && p.path@ == trimmed(path@),
    {
        let name = str_trim(name);
        let path = str_trim(path);
        if name.is_empty() || path.is_empty() {
            Err(PlaylistError::MissingField)
        } else if self.has_name(name) {
            Err(PlaylistError::NameTaken)
        } else {
            Ok(Playlist { name: name.to_owned(), path: path.to_owned() })
        }
    }

    /// The folder that entries for the playlist called `name` are saved to:
    /// that of the first playlist with exactly this name, or the empty
    /// string when none has it.
    pub fn target_dir(&self, name: &String) -> (r: String)
        ensures
            r@ == target_dir_of(self.playlists@, name@),
    {
        let n: usize = self.playlists.len();
        let mut i: usize = 0;
        assert(self.playlists@.skip(0) =~= self.playlists@);
        while i < n
            invariant
                n == self.playlists.len(),
                0 <= i <= n,
                target_dir_of(self.playlists@, name@) == target_dir_of(
                    self.playlists@.skip(i as int),
                    name@,
                ),
            decreases n - i,
        {
            if self.playlists[i].name == *name {
                return self.playlists[i].path.clone();
            }
            proof {
                lemma_target_dir_step(self.playlists@, name@, i as int);
            }
            i = i + 1;
        }
        String::new()
    }
}

} // verus!
