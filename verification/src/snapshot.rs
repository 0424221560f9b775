//! The window snapshot: the immutable record of the managed window,
//! captured once at startup and read by every other component.

use vstd::prelude::*;

verus! {

/// A record of one window as reported by the window manager.
///
/// Captured once, before the window is moved off-screen, and never
/// re-fetched; all later operations reference it by value.
#[derive(Debug)]
pub struct WindowInfo {
    /// Opaque stable identifier of the window, unique for the window's
    /// lifetime; the correlation key for every later query and command.
    pub address: String,
    /// Workspace the window occupied before minimization. Positive ids are
    /// ordinary visible workspaces; non-positive ids are special (hidden)
    /// workspaces.
    pub workspace_id: i32,
    /// Display title; may be empty.
    pub title: String,
    /// Application class identifier; may be empty as observed.
    pub class: String,
}

/// Mathematical view of a window record.
pub struct WindowInfoV {
    pub address: Seq<char>,
    pub workspace_id: int,
    pub title: Seq<char>,
    pub class: Seq<char>,
}

impl View for WindowInfo {
    type V = WindowInfoV;

    open spec fn view(&self) -> WindowInfoV {
        WindowInfoV {
            address: self.address@,
            workspace_id: self.workspace_id as int,
            title: self.title@,
            class: self.class@,
        }
    }
}

/// The class identifier used downstream: an empty class at capture time is
/// defaulted to the title, for icon and identity matching.
pub open spec fn effective_class(class: Seq<char>, title: Seq<char>) -> Seq<char> {
    if class.len() == 0 {
        title
    } else {
        class
    }
}

/// If the class is empty at capture, the effective class equals the title;
/// otherwise the class is kept as observed.
pub proof fn lemma_empty_class_defaults_to_title(class: Seq<char>, title: Seq<char>)
    ensures
        class.len() == 0 ==> effective_class(class, title) == title,
        class.len() > 0 ==> effective_class(class, title) == class,
{
}

/// Turns a raw window record into the snapshot used for the rest of the
/// process: identical, except that an empty class is defaulted to the title.
pub fn capture_snapshot(info: WindowInfo) -> (s: WindowInfo)
    ensures
        s@.address == info@.address,
        s@.workspace_id == info@.workspace_id,
        s@.title == info@.title,
        s@.class == effective_class(info@.class, info@.title),
{
    if info.class.as_str().is_empty() {
        let title = info.title.clone();
        WindowInfo { class: title, ..info }
    } else {
        info
    }
}

/// An error of the snapshot-resolution step: no window with the requested
/// address exists in the window list.
#[derive(PartialEq, Eq, Structural, Clone, Copy, Debug)]
pub enum LookupError {
    NoTargetWindow,
}

/// The first entry of a window list whose address equals `addr`, if any.
pub open spec fn first_match(s: Seq<WindowInfo>, addr: Seq<char>) -> Option<WindowInfo>
    decreases s.len(),
{
    if s.len() == 0 {
        None
    } else if s[0]@.address == addr {
        Some(s[0])
    } else {
        first_match(s.drop_first(), addr)
    }
}

/// `first_match` returns the first matching entry: a found window stands in
/// the list, carries the requested address, and no earlier entry matches;
/// a miss means no entry matches at all.
pub proof fn lemma_first_match_is_first(s: Seq<WindowInfo>, addr: Seq<char>)
    ensures
        match first_match(s, addr) {
            Some(w) => exists|i: int|
                0 <= i < s.len() && #[trigger] s[i] == w && w@.address == addr && (forall|j: int|
                    0 <= j < i ==> s[j]@.address != addr),
            None => forall|i: int| 0 <= i < s.len() ==> s[i]@.address != addr,
        },
    decreases s.len(),
{
    if s.len() == 0 {
    } else if s[0]@.address == addr {
        assert(exists|i: int|
            0 <= i < s.len() && #[trigger] s[i] == s[0] && s[0]@.address == addr && (forall|j: int|
                0 <= j < i ==> s[j]@.address != addr));
    } else {
        lemma_first_match_is_first(s.drop_first(), addr);
        match first_match(s.drop_first(), addr) {
            Some(w) => {
                let i = choose|i: int|
                    0 <= i < s.drop_first().len() && #[trigger] s.drop_first()[i] == w
                        && w@.address == addr && (forall|j: int|
                        0 <= j < i ==> s.drop_first()[j]@.address != addr);
                assert(s[i + 1] == w);
                assert(forall|j: int| 0 < j < i + 1 ==> s[j]@.address != addr) by {
                    assert(forall|j: int|
                        0 < j < i + 1 ==> s[j]@.address == s.drop_first()[j - 1]@.address);
                }
            },
            None => {
                assert(forall|i: int|
                    0 < i < s.len() ==> s[i]@.address == s.drop_first()[i - 1]@.address);
            },
        }
    }
}

/// Finds the first window whose address equals `address` in a freshly
/// queried window list; fails when no entry matches.
pub fn get_window_by_address(clients: &Vec<WindowInfo>, address: &String) -> (r: Result<
    WindowInfo,
    LookupError,
>)
    ensures
        match r {
            Ok(w) => first_match(clients@, address@) matches Some(m) && w@ == m@,
            Err(e) => e == LookupError::NoTargetWindow && first_match(clients@, address@) is None,
        },
{
    let ghost orig = clients@;
    let mut i: usize = 0;
    proof {
        assert(orig.skip(0) =~= orig);
    }
    while i < clients.len()
        invariant
            clients@ == orig,
            0 <= i <= orig.len(),
            first_match(orig, address@) == first_match(orig.skip(i as int), address@),
        decreases orig.len() - i,
    {
        proof {
            assert(orig.skip(i as int)[0] == orig[i as int]);
        }
        if clients[i].address == *address {
            let w = duplicate_window(&clients[i]);
            proof {
                assert(first_match(orig.skip(i as int), address@) == Some(orig[i as int]));
            }
            return Ok(w);
        }
        proof {
            assert(orig.skip(i as int).drop_first() =~= orig.skip(i as int + 1));
        }
        i += 1;
    }
    proof {
        assert(orig.skip(orig.len() as int).len() == 0);
    }
    Err(LookupError::NoTargetWindow)
}

/// A field-wise copy of a window record.
pub fn duplicate_window(w: &WindowInfo) -> (r: WindowInfo)
    ensures
        r@ == w@,
{
    WindowInfo {
        address: w.address.clone(),
        workspace_id: w.workspace_id,
        title: w.title.clone(),
        class: w.class.clone(),
    }
}

} // verus!
