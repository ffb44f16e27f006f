//! Status facts of a change-oriented repository.
//!
//! Reading a repository is left to the caller, who hands over a
//! [`WorkingCopy`]: what the repository says of its working revision, as plain
//! values. [`collect`] turns it into the [`JjInfo`] that is rendered.

use crate::text::prefix_of;
use crate::text::take_chars;
use jj_lib::hex_util::encode_reverse_hex;
use vstd::prelude::*;
use vstd::string::*;

verus! {

/// Remote that stands for the Git repository a workspace is colocated with.
/// Its bookmarks mirror the local Git refs and say nothing of a real remote.
pub const GIT_REMOTE: &'static str = "git";

/// A bookmark as a remote has it.
#[derive(Debug)]
pub struct RemoteBookmark {
    /// Name of the bookmark.
    pub name: String,
    /// Name of the remote.
    pub remote: String,
    /// Id of the one revision it points at; `None` where it is absent or
    /// conflicted.
    pub target: Option<Vec<u8>>,
}

/// What a repository says of its working revision.
#[derive(Debug)]
pub struct WorkingCopy {
    /// Id of the working revision.
    pub commit_id: Vec<u8>,
    /// Its change id, in full.
    pub change_id: Vec<u8>,
    /// How many leading digits of the change id, written out, tell it apart
    /// from every other change; `None` where that could not be resolved.
    pub unique_prefix: Option<usize>,
    /// Its description.
    pub description: String,
    /// Its tree holds unresolved conflicts.
    pub has_conflict: bool,
    /// How many revisions carry its change id; `None` where that could not be
    /// resolved.
    pub change_commits: Option<usize>,
    /// Names of the local bookmarks that point at it, in the order in which the
    /// repository lists them.
    pub local_bookmarks: Vec<String>,
    /// Bookmarks of the remotes. Every remote bookmark that bears the name of
    /// one of `local_bookmarks` is among them; others may be left out.
    pub remote_bookmarks: Vec<RemoteBookmark>,
}

/// Status of the working revision.
#[derive(Debug)]
pub struct JjInfo {
    /// Change id, cut to the length asked for.
    pub change_id: String,
    /// How many leading characters of `change_id` belong to its unique prefix.
    pub unique_prefix: usize,
    /// Bookmark at the working revision, if any.
    pub bookmark: Option<String>,
    /// The description is empty.
    pub empty_desc: bool,
    /// The tree holds conflicts.
    pub conflict: bool,
    /// More than one revision carries the change id.
    pub divergent: bool,
    /// The bookmark exists on a remote.
    pub has_remote: bool,
    /// A remote bookmark points at the working revision.
    pub is_synced: bool,
}

/// A remote bookmark as the contracts see it.
pub struct RemoteBookmarkView {
    pub name: Seq<char>,
    pub remote: Seq<char>,
    pub target: Option<Seq<u8>>,
}

/// A working revision as the contracts see it.
pub struct WorkingCopyView {
    pub commit_id: Seq<u8>,
    pub change_id: Seq<u8>,
    pub unique_prefix: Option<nat>,
    pub description: Seq<char>,
    pub has_conflict: bool,
    pub change_commits: Option<nat>,
    pub local_bookmarks: Seq<Seq<char>>,
    pub remote_bookmarks: Seq<RemoteBookmarkView>,
}

/// The status of a working revision as the contracts see it.
pub struct JjInfoView {
    pub change_id: Seq<char>,
    pub unique_prefix: nat,
    pub bookmark: Option<Seq<char>>,
    pub empty_desc: bool,
    pub conflict: bool,
    pub divergent: bool,
    pub has_remote: bool,
    pub is_synced: bool,
}

impl View for RemoteBookmark {
    type V = RemoteBookmarkView;

    open spec fn view(&self) -> RemoteBookmarkView {
        RemoteBookmarkView {
            name: self.name@,
            remote: self.remote@,
            target: match self.target {
                Some(id) => Some(id@),
                None => None,
            },
        }
    }
}

impl View for WorkingCopy {
    type V = WorkingCopyView;

    open spec fn view(&self) -> WorkingCopyView {
        WorkingCopyView {
            commit_id: self.commit_id@,
            change_id: self.change_id@,
            unique_prefix: match self.unique_prefix {
                Some(count) => Some(count as nat),
                None => None,
            },
            description: self.description@,
            has_conflict: self.has_conflict,
            change_commits: match self.change_commits {
                Some(count) => Some(count as nat),
                None => None,
            },
            local_bookmarks: self.local_bookmarks@.map_values(|name: String| name@),
            remote_bookmarks: self.remote_bookmarks@.map_values(|remote: RemoteBookmark| remote@),
        }
    }
}

impl View for JjInfo {
    type V = JjInfoView;

    open spec fn view(&self) -> JjInfoView {
        JjInfoView {
            change_id: self.change_id@,
            unique_prefix: self.unique_prefix as nat,
            bookmark: match self.bookmark {
                Some(name) => Some(name@),
                None => None,
            },
            empty_desc: self.empty_desc,
            conflict: self.conflict,
            divergent: self.divergent,
            has_remote: self.has_remote,
            is_synced: self.is_synced,
        }
    }
}

/// The digit that stands for `value`, which is below 16: `z` for 0, `y` for 1,
/// down to `k` for 15.
pub open spec fn reverse_hex_digit(value: int) -> char {
    ((122 - value) as u8) as char
}

/// `bytes` written with the digits `z` to `k`, two for each byte, the high
/// half first.
pub open spec fn reverse_hex(bytes: Seq<u8>) -> Seq<char> {
    Seq::new(
        2 * bytes.len(),
        |i: int|
            if i % 2 == 0 {
                reverse_hex_digit(bytes[i / 2] as int / 16)
            } else {
                reverse_hex_digit(bytes[i / 2] as int % 16)
            },
    )
}

/// `jj_lib::hex_util::encode_reverse_hex` writes each byte as two of the
/// sixteen digits `zyxwvutsrqponmlk`: the digit at the place of the byte's high
/// half, then the one at the place of its low half.
pub assume_specification[ jj_lib::hex_util::encode_reverse_hex ](data: &[u8]) -> (text: String)
    ensures
        text@ == reverse_hex(data@),
;

/// `part` is one part of `text`, in one piece.
pub open spec fn part_of(part: Seq<char>, text: Seq<char>) -> bool {
    exists|from: int, to: int|
        0 <= from <= to <= text.len() && part == #[trigger] text.subrange(from, to)
}

/// What `str::trim` leaves of a text: the text without its leading and
/// trailing whitespace, as Unicode's `White_Space` has it.
pub uninterp spec fn trimmed(text: Seq<char>) -> Seq<char>;

/// `str::trim` returns the slice that is left when leading and trailing
/// whitespace is taken away. Which characters count is not spelled out here:
/// the result goes by the name `trimmed`. It is a slice of the text, so one
/// part of it, in one piece.
pub assume_specification[ str::trim ](text: &str) -> (rest: &str)
    ensures
        rest@ == trimmed(text@),
        part_of(rest@, text@),
;

/// `remote` is the bookmark `name` on a real remote.
pub open spec fn tracks(remote: RemoteBookmarkView, name: Seq<char>) -> bool {
    remote.name == name && remote.remote != GIT_REMOTE@
}

/// Some real remote has the bookmark `name`.
pub open spec fn on_remote(remotes: Seq<RemoteBookmarkView>, name: Seq<char>) -> bool {
    exists|i: int| 0 <= i < remotes.len() && tracks(#[trigger] remotes[i], name)
}

/// Some real remote has the bookmark `name` pointing at `commit_id`.
pub open spec fn synced_with_remote(
    remotes: Seq<RemoteBookmarkView>,
    name: Seq<char>,
    commit_id: Seq<u8>,
) -> bool {
    exists|i: int|
        0 <= i < remotes.len() && tracks(#[trigger] remotes[i], name) && remotes[i].target
            == Some(commit_id)
}

/// The facts of a working revision, given its change id written out
/// (`full_id`) and its description without surrounding whitespace.
pub open spec fn facts(
    wc: WorkingCopyView,
    full_id: Seq<char>,
    description: Seq<char>,
    id_length: nat,
) -> JjInfoView {
    let change_id = prefix_of(full_id, id_length);
    let bookmark = if wc.local_bookmarks.len() > 0 {
        Some(wc.local_bookmarks[0])
    } else {
        None
    };
    JjInfoView {
        change_id,
        unique_prefix: match wc.unique_prefix {
            Some(count) if count < change_id.len() => count,
            Some(_) => change_id.len(),
            None => 0,
        },
        bookmark,
        empty_desc: description.len() == 0,
        conflict: wc.has_conflict,
        divergent: wc.change_commits matches Some(count) && count > 1,
        has_remote: bookmark matches Some(name) && on_remote(wc.remote_bookmarks, name),
        is_synced: match bookmark {
            Some(name) => synced_with_remote(wc.remote_bookmarks, name, wc.commit_id),
            None => true,
        },
    }
}

/// The facts of a working revision.
pub open spec fn status_of(wc: WorkingCopyView, id_length: nat) -> JjInfoView {
    facts(wc, reverse_hex(wc.change_id), trimmed(wc.description), id_length)
}

/// The identifier shown is the beginning of the full one, cut to `id_length`
/// characters. A full one that is no longer than that is shown as it is, with
/// nothing added. The unique prefix never reaches beyond what is shown.
pub proof fn lemma_shown_id(
    wc: WorkingCopyView,
    full_id: Seq<char>,
    description: Seq<char>,
    id_length: nat,
)
    ensures
        facts(wc, full_id, description, id_length).change_id.is_prefix_of(full_id),
        facts(wc, full_id, description, id_length).change_id.len() == if id_length
            < full_id.len() {
            id_length
        } else {
            full_id.len()
        },
        id_length >= full_id.len() ==> facts(wc, full_id, description, id_length).change_id
            == full_id,
        facts(wc, full_id, description, id_length).unique_prefix <= facts(
            wc,
            full_id,
            description,
            id_length,
        ).change_id.len(),
{
}

/// Without a bookmark at the working revision there is nothing that could be
/// out of step: no remote is reported, and the revision counts as synced.
pub proof fn lemma_no_bookmark_is_synced(
    wc: WorkingCopyView,
    full_id: Seq<char>,
    description: Seq<char>,
    id_length: nat,
)
    requires
        wc.local_bookmarks.len() == 0,
    ensures
        facts(wc, full_id, description, id_length).bookmark is None,
        !facts(wc, full_id, description, id_length).has_remote,
        facts(wc, full_id, description, id_length).is_synced,
        status_of(wc, id_length).bookmark is None,
        !status_of(wc, id_length).has_remote,
        status_of(wc, id_length).is_synced,
{
}

/// A revision that is synced with a remote has that remote.
pub proof fn lemma_synced_has_remote(
    wc: WorkingCopyView,
    full_id: Seq<char>,
    description: Seq<char>,
    id_length: nat,
)
    requires
        wc.local_bookmarks.len() > 0,
        facts(wc, full_id, description, id_length).is_synced,
    ensures
        facts(wc, full_id, description, id_length).has_remote,
{
}

/// One more remote bookmark adds its own answer to what the ones before it
/// gave: a match anywhere is a match, and nothing else is.
pub proof fn lemma_one_more_remote(
    remotes: Seq<RemoteBookmarkView>,
    next: RemoteBookmarkView,
    name: Seq<char>,
    commit_id: Seq<u8>,
)
    ensures
        on_remote(remotes.push(next), name) == (on_remote(remotes, name) || tracks(next, name)),
        synced_with_remote(remotes.push(next), name, commit_id) == (synced_with_remote(
            remotes,
            name,
            commit_id,
        ) || (tracks(next, name) && next.target == Some(commit_id))),
{
    let all = remotes.push(next);
    let last = remotes.len() as int;
    assert(all[last] == next);
    assert(forall|j: int| 0 <= j < last ==> all[j] == remotes[j]);
}

/// The displayed identifier: `full_id` cut to `id_length` characters, and left
/// as it is where it is no longer than that.
pub fn short_id(full_id: &str, id_length: usize) -> (id: String)
    ensures
        id@ == prefix_of(full_id@, id_length as nat),
{
    take_chars(full_id, id_length)
}

/// Whether two ids are the same, byte for byte.
fn same_id(first: &Vec<u8>, second: &Vec<u8>) -> (same: bool)
    ensures
        same == (first@ == second@),
{
    let same = *first == *second;
    assert((first@ == second@) == (first@ =~= second@));
    same
}

/// Looks through every remote bookmark for `name` on a real remote. The first
/// answer says whether there is one, the second whether one of them points at
/// `commit_id`. No match ends the search early: one that agrees is enough,
/// wherever it stands.
pub fn remote_sync(remotes: &Vec<RemoteBookmark>, name: &String, commit_id: &Vec<u8>) -> (state: (
    bool,
    bool,
))
    ensures
        state.0 == on_remote(remotes@.map_values(|remote: RemoteBookmark| remote@), name@),
        state.1 == synced_with_remote(
            remotes@.map_values(|remote: RemoteBookmark| remote@),
            name@,
            commit_id@,
        ),
{
    let ghost views = remotes@.map_values(|remote: RemoteBookmark| remote@);
    let reserved = GIT_REMOTE.to_owned();
    let mut has_remote = false;
    let mut is_synced = false;
    let mut i: usize = 0;
    while i < remotes.len()
        invariant
            i <= remotes.len(),
            views == remotes@.map_values(|remote: RemoteBookmark| remote@),
            reserved@ == GIT_REMOTE@,
            has_remote == on_remote(views.take(i as int), name@),
            is_synced == synced_with_remote(views.take(i as int), name@, commit_id@),
        decreases remotes.len() - i,
    {
        let remote = &remotes[i];
        let matching = remote.name == *name && remote.remote != reserved;
        let this_synced = matching && match &remote.target {
            Some(id) => same_id(id, commit_id),
            None => false,
        };
        proof {
            lemma_one_more_remote(views.take(i as int), remote@, name@, commit_id@);
            assert(views.take(i + 1) == views.take(i as int).push(remote@));
        }
        has_remote = has_remote || matching;
        is_synced = is_synced || this_synced;
        i += 1;
    }
    proof {
        assert(views.take(i as int) == views);
    }
    (has_remote, is_synced)
}

/// Puts the facts together from a working revision, its change id written out
/// and its description without surrounding whitespace.
pub fn summarize(wc: &WorkingCopy, full_id: &str, description: &str, id_length: usize) -> (info:
    JjInfo)
    ensures
        info@ == facts(wc@, full_id@, description@, id_length as nat),
{
    let change_id = short_id(full_id, id_length);
    let shown = change_id.as_str().unicode_len();
    let unique_prefix = match wc.unique_prefix {
        Some(count) if count < shown => count,
        Some(_) => shown,
        None => 0,
    };
    let empty_desc = description.unicode_len() == 0;
    let divergent = match wc.change_commits {
        Some(count) => count > 1,
        None => false,
    };
    let bookmark: Option<String> = if wc.local_bookmarks.len() > 0 {
        Some(wc.local_bookmarks[0].clone())
    } else {
        None
    };
    let (has_remote, is_synced) = match &bookmark {
        Some(name) => remote_sync(&wc.remote_bookmarks, name, &wc.commit_id),
        None => (false, true),
    };
    JjInfo {
        change_id,
        unique_prefix,
        bookmark,
        empty_desc,
        conflict: wc.has_conflict,
        divergent,
        has_remote,
        is_synced,
    }
}

/// Collects the status of a working revision. The change id is shown in the
/// digits `z` to `k` and cut to `id_length` characters. A description counts
/// as empty where nothing is left of it without the whitespace around it, as
/// is the case for one that holds nothing.
pub fn collect(wc: &WorkingCopy, id_length: usize) -> (info: JjInfo)
    ensures
        info@ == status_of(wc@, id_length as nat),
        wc.description@.len() == 0 ==> info.empty_desc,
{
    let full_id = encode_reverse_hex(wc.change_id.as_slice());
    let description = wc.description.as_str().trim();
    summarize(wc, full_id.as_str(), description, id_length)
}

} // verus!
