//! Rules of the host commands around the bridge: which application
//! directories can be asked for, how their paths are given back, and what a
//! directory listing keeps.
use crate::error::BridgeError;
use vstd::prelude::*;

verus! {

/// The name of the application's own directory under the cache and data
/// roots of the host.
pub const APP_DIRECTORY_NAME: &'static str = "BOSS TONE STUDIO for KATANA Gen 3";

/// The application directories a path can be asked for.
#[derive(Clone, Copy, Debug, PartialEq, Eq)]
pub enum AppDir {
    /// Under the host's cache root.
    Temporary,
    /// Under the host's data root.
    Library,
}

/// The directory a path tag names: `temporary` or `library`; any other tag
/// is `UnsupportedPath`, carrying the tag.
pub fn app_dir(tag: &str) -> (r: Result<AppDir, BridgeError>)
    ensures
        tag@ == "temporary"@ ==> r == Ok::<AppDir, BridgeError>(AppDir::Temporary),
        tag@ == "library"@ ==> r == Ok::<AppDir, BridgeError>(AppDir::Library),
        tag@ != "temporary"@ && tag@ != "library"@ ==> (r matches Err(
            BridgeError::UnsupportedPath(t),
        ) && t@ == tag@),
{
    proof {
        reveal_strlit("temporary");
        reveal_strlit("library");
        assert("library"@[0] != "temporary"@[0]);
    }
    let given = String::from_str(tag);
    if given == String::from_str("temporary") {
        Ok(AppDir::Temporary)
    } else if given == String::from_str("library") {
        Ok(AppDir::Library)
    } else {
        Err(BridgeError::UnsupportedPath(given))
    }
}

/// A canonical directory path as handed to the user interface: with `/`
/// appended.
pub fn with_trailing_separator(path: String) -> (r: String)
    ensures
        r@ == path@.push('/'),
{
    let mut r = path;
    r.append("/");
    proof {
        reveal_strlit("/");
    }
    assert(r@ =~= path@.push('/'));
    r
}

/// A path that does not already end in `/` comes back ending in exactly one
/// `/`, the same for the same path.
pub proof fn lemma_one_trailing_separator(path: Seq<char>)
    requires
        path.len() == 0 || path.last() != '/',
    ensures
        path.push('/').last() == '/',
        path.push('/').len() < 2 || path.push('/')[path.push('/').len() - 2] != '/',
        path.push('/').drop_last() == path,
{
    assert(path.push('/').drop_last() =~= path);
}

/// The names of a directory's entries that could be read, in order; an
/// entry that could not be read (`None`) is left out.
pub open spec fn readable(entries: Seq<Option<String>>) -> Seq<String>
    decreases entries.len(),
{
    if entries.len() == 0 {
        Seq::empty()
    } else {
        let rest = readable(entries.drop_last());
        match entries.last() {
            Some(n) => rest.push(n),
            None => rest,
        }
    }
}

/// The listing of a directory from its entries as read: unreadable ones are
/// skipped and the rest kept in order.
pub fn readable_entries(entries: Vec<Option<String>>) -> (r: Vec<String>)
    ensures
        r@ == readable(entries@),
{
    let mut r: Vec<String> = Vec::new();
    let mut i: usize = 0;
    while i < entries.len()
        invariant
            i <= entries.len(),
            r@ == readable(entries@.take(i as int)),
        decreases entries.len() - i,
    {
        assert(entries@.take(i + 1).drop_last() =~= entries@.take(i as int));
        match &entries[i] {
            Some(n) => r.push(n.clone()),
            None => {},
        }
        i = i + 1;
    }
    assert(entries@.take(i as int) =~= entries@);
    r
}

/// An unreadable entry only drops itself: the listing of entries with one
/// more unreadable entry inserted anywhere is unchanged.
pub proof fn lemma_unreadable_entry_skipped(entries: Seq<Option<String>>, k: int)
    requires
        0 <= k <= entries.len(),
    ensures
        readable(entries.insert(k, None)) == readable(entries),
    decreases entries.len(),
{
    if k == entries.len() {
        assert(entries.insert(k, None).drop_last() =~= entries);
    } else {
        lemma_unreadable_entry_skipped(entries.drop_last(), k);
        assert(entries.insert(k, None).drop_last() =~= entries.drop_last().insert(k, None));
    }
}

/// The volume list the host reports: always the empty JSON list.
pub fn fs_volumes() -> (r: String)
    ensures
        r@ == "[]"@,
{
    String::from_str("[]")
}

} // verus!
