//! Recognising the editor's own native window among the windows of the
//! process or the display, by its class name and by elimination.
use vstd::prelude::*;

verus! {

/// The bytes of `Druid`, the tag that the Druid toolkit puts in the class
/// names of its windows.
pub open spec fn druid_tag() -> Seq<u8> {
    seq![68u8, 114u8, 117u8, 105u8, 100u8]
}

/// The bytes of `druid`, the tag as it appears in X11 class hints.
pub open spec fn druid_tag_lower() -> Seq<u8> {
    seq![100u8, 114u8, 117u8, 105u8, 100u8]
}

/// The bytes of `DruidWindow`, the class name of Druid's AppKit windows.
pub open spec fn druid_window_class() -> Seq<u8> {
    seq![68u8, 114u8, 117u8, 105u8, 100u8, 87u8, 105u8, 110u8, 100u8, 111u8, 119u8]
}

/// `needle` stands in `hay` starting at position `i`.
pub open spec fn occurs_at(hay: Seq<u8>, needle: Seq<u8>, i: int) -> bool {
    &&& 0 <= i
    &&& i + needle.len() <= hay.len()
    &&& hay.subrange(i, i + needle.len()) == needle
}

/// `needle` stands somewhere in `hay` as a run of consecutive bytes.
pub open spec fn contains_run(hay: Seq<u8>, needle: Seq<u8>) -> bool {
    exists|i: int| occurs_at(hay, needle, i)
}

/// The byte with ASCII upper-case letters mapped to lower case.
pub open spec fn ascii_lower(b: u8) -> u8 {
    if 65 <= b && b <= 90 {
        (b + 32) as u8
    } else {
        b
    }
}

/// `needle` stands in `hay` starting at position `i`, ASCII letters compared
/// without regard to case.
pub open spec fn occurs_at_ignore_case(hay: Seq<u8>, needle: Seq<u8>, i: int) -> bool {
    &&& 0 <= i
    &&& i + needle.len() <= hay.len()
    &&& forall|k: int| 0 <= k < needle.len() ==> ascii_lower(#[trigger] hay[i + k]) == ascii_lower(
        needle[k],
    )
}

/// A class name of an AppKit window that belongs to Druid: `DruidWindow`,
/// or any name that contains `Druid`.
pub open spec fn is_druid_class_name_spec(name: Seq<u8>) -> bool {
    name == druid_window_class() || contains_run(name, druid_tag())
}

/// An X11 class hint string that names Druid: it contains `druid` in any case.
pub open spec fn mentions_druid_spec(name: Seq<u8>) -> bool {
    exists|i: int| occurs_at_ignore_case(name, druid_tag_lower(), i)
}

/// The ASCII lower-case form of a byte.
fn to_ascii_lower(b: u8) -> (r: u8)
    ensures
        r == ascii_lower(b),
{
    if 65 <= b && b <= 90 {
        b + 32
    } else {
        b
    }
}

/// Whether `needle` stands in `hay` at position `i`.
fn run_at(hay: &[u8], needle: &[u8], i: usize) -> (r: bool)
    requires
        i + needle@.len() <= hay@.len(),
    ensures
        r == occurs_at(hay@, needle@, i as int),
{
    let n = needle.len();
    let mut k: usize = 0;
    while k < n
        invariant
            n == needle@.len(),
            k <= n,
            i + n <= hay@.len(),
            hay@.len() == hay.len(),
            forall|j: int| 0 <= j < k ==> hay@[i + j] == needle@[j],
        decreases n - k,
    {
        if hay[i + k] != needle[k] {
            assert(hay@.subrange(i as int, i + n)[k as int] != needle@[k as int]);
            return false;
        }
        k = k + 1;
    }
    assert(hay@.subrange(i as int, i + n) =~= needle@);
    true
}

/// Whether `needle` stands in `hay` at position `i`, ignoring ASCII case.
fn run_at_ignore_case(hay: &[u8], needle: &[u8], i: usize) -> (r: bool)
    requires
        i + needle@.len() <= hay@.len(),
    ensures
        r == occurs_at_ignore_case(hay@, needle@, i as int),
{
    let n = needle.len();
    let mut k: usize = 0;
    while k < n
        invariant
            n == needle@.len(),
            k <= n,
            i + n <= hay@.len(),
            hay@.len() == hay.len(),
            forall|j: int| 0 <= j < k ==> ascii_lower(#[trigger] hay@[i + j]) == ascii_lower(
                needle@[j],
            ),
        decreases n - k,
    {
        if to_ascii_lower(hay[i + k]) != to_ascii_lower(needle[k]) {
            return false;
        }
        k = k + 1;
    }
    true
}

/// Whether `needle` stands somewhere in `hay`.
fn has_run(hay: &[u8], needle: &[u8]) -> (r: bool)
    ensures
        r == contains_run(hay@, needle@),
{
    let n = needle.len();
    if n > hay.len() {
        assert forall|i: int| !occurs_at(hay@, needle@, i) by {}
        return false;
    }
    if n == 0 {
        assert(hay@.subrange(0, 0) =~= needle@);
        assert(occurs_at(hay@, needle@, 0));
        return true;
    }
    let last = hay.len() - n;
    let mut i: usize = 0;
    while i <= last
        invariant
            n == needle@.len(),
            last + n == hay@.len(),
            n > 0,
            hay@.len() == hay.len(),
            forall|j: int| 0 <= j < i ==> !occurs_at(hay@, needle@, j),
        decreases last + 1 - i,
    {
        if run_at(hay, needle, i) {
            return true;
        }
        i = i + 1;
    }
    assert forall|j: int| !occurs_at(hay@, needle@, j) by {}
    false
}

/// Whether `needle` stands somewhere in `hay`, ignoring ASCII case.
fn has_run_ignore_case(hay: &[u8], needle: &[u8]) -> (r: bool)
    ensures
        r == (exists|i: int| occurs_at_ignore_case(hay@, needle@, i)),
{
    let n = needle.len();
    if n > hay.len() {
        assert forall|i: int| !occurs_at_ignore_case(hay@, needle@, i) by {}
        return false;
    }
    if n == 0 {
        assert(occurs_at_ignore_case(hay@, needle@, 0));
        return true;
    }
    let last = hay.len() - n;
    let mut i: usize = 0;
    while i <= last
        invariant
            n == needle@.len(),
            last + n == hay@.len(),
            n > 0,
            hay@.len() == hay.len(),
            forall|j: int| 0 <= j < i ==> !occurs_at_ignore_case(hay@, needle@, j),
        decreases last + 1 - i,
    {
        if run_at_ignore_case(hay, needle, i) {
            return true;
        }
        i = i + 1;
    }
    assert forall|j: int| !occurs_at_ignore_case(hay@, needle@, j) by {}
    false
}

/// Whether an AppKit window class name belongs to a Druid window: it is
/// `DruidWindow`, or it contains `Druid`.
pub fn is_druid_class_name(name: &[u8]) -> (r: bool)
    ensures
        r == is_druid_class_name_spec(name@),
        r <==> exists|i: int|
            #![trigger name@[i]]
            0 <= i && i + 5 <= name@.len() && name@[i] == 68u8 && name@[i + 1] == 114u8 && name@[i
                + 2] == 117u8 && name@[i + 3] == 105u8 && name@[i + 4] == 100u8,
{
    proof {
        lemma_druid_class_name_bytes(name@);
    }
    let class: Vec<u8> = vec![68u8, 114u8, 117u8, 105u8, 100u8, 87u8, 105u8, 110u8, 100u8, 111u8, 119u8];
    let tag: Vec<u8> = vec![68u8, 114u8, 117u8, 105u8, 100u8];
    assert(class@ =~= druid_window_class());
    assert(tag@ =~= druid_tag());
    let exact = name.len() == class.len() && run_at(name, class.as_slice(), 0);
    proof {
        if name@.len() == class@.len() {
            assert(name@.subrange(0, class@.len() as int) =~= name@);
        }
    }
    exact || has_run(name, tag.as_slice())
}

/// Whether an X11 class hint string (its resource name or class) names
/// Druid: it contains `druid` in any mix of cases.
pub fn mentions_druid(name: &[u8]) -> (r: bool)
    ensures
        r == mentions_druid_spec(name@),
        r <==> exists|i: int|
            #![trigger name@[i]]
            0 <= i && i + 5 <= name@.len() && (name@[i] == 100u8 || name@[i] == 68u8) && (name@[i
                + 1] == 114u8 || name@[i + 1] == 82u8) && (name@[i + 2] == 117u8 || name@[i + 2]
                == 85u8) && (name@[i + 3] == 105u8 || name@[i + 3] == 73u8) && (name@[i + 4]
                == 100u8 || name@[i + 4] == 68u8),
{
    proof {
        lemma_mentions_druid_bytes(name@);
    }
    let tag: Vec<u8> = vec![100u8, 114u8, 117u8, 105u8, 100u8];
    assert(tag@ =~= druid_tag_lower());
    has_run_ignore_case(name, tag.as_slice())
}

/// A class name belongs to a Druid AppKit window exactly when it contains
/// the five bytes `D`, `r`, `u`, `i`, `d` in a row (`DruidWindow` among
/// them), whatever its length.
pub proof fn lemma_druid_class_name_bytes(name: Seq<u8>)
    ensures
        is_druid_class_name_spec(name) <==> exists|i: int|
            #![trigger name[i]]
            0 <= i && i + 5 <= name.len() && name[i] == 68u8 && name[i + 1] == 114u8 && name[i
                + 2] == 117u8 && name[i + 3] == 105u8 && name[i + 4] == 100u8,
{
    if is_druid_class_name_spec(name) {
        if name == druid_window_class() {
            assert(name[0] == 68u8 && name[1] == 114u8 && name[2] == 117u8 && name[3] == 105u8
                && name[4] == 100u8);
        } else {
            let i = choose|i: int| occurs_at(name, druid_tag(), i);
            let sub = name.subrange(i, i + 5);
            assert(sub[0] == name[i] && sub[1] == name[i + 1] && sub[2] == name[i + 2] && sub[3]
                == name[i + 3] && sub[4] == name[i + 4]);
        }
    }
    if exists|i: int|
        #![trigger name[i]]
        0 <= i && i + 5 <= name.len() && name[i] == 68u8 && name[i + 1] == 114u8 && name[i + 2]
            == 117u8 && name[i + 3] == 105u8 && name[i + 4] == 100u8 {
        let i = choose|i: int|
            #![trigger name[i]]
            0 <= i && i + 5 <= name.len() && name[i] == 68u8 && name[i + 1] == 114u8 && name[i
                + 2] == 117u8 && name[i + 3] == 105u8 && name[i + 4] == 100u8;
        assert(name.subrange(i, i + 5) =~= druid_tag());
        assert(occurs_at(name, druid_tag(), i));
    }
}

/// An X11 class hint names Druid exactly when it contains `d`, `r`, `u`,
/// `i`, `d` in a row, each letter in either case.
pub proof fn lemma_mentions_druid_bytes(name: Seq<u8>)
    ensures
        mentions_druid_spec(name) <==> exists|i: int|
            #![trigger name[i]]
            0 <= i && i + 5 <= name.len() && (name[i] == 100u8 || name[i] == 68u8) && (name[i
                + 1] == 114u8 || name[i + 1] == 82u8) && (name[i + 2] == 117u8 || name[i + 2]
                == 85u8) && (name[i + 3] == 105u8 || name[i + 3] == 73u8) && (name[i + 4] == 100u8
                || name[i + 4] == 68u8),
{
    let tag = druid_tag_lower();
    assert(ascii_lower(tag[0]) == 100u8 && ascii_lower(tag[1]) == 114u8 && ascii_lower(tag[2])
        == 117u8 && ascii_lower(tag[3]) == 105u8 && ascii_lower(tag[4]) == 100u8);
    if mentions_druid_spec(name) {
        let i = choose|i: int| occurs_at_ignore_case(name, tag, i);
        assert(ascii_lower(name[i + 0]) == ascii_lower(tag[0]));
        assert(ascii_lower(name[i + 1]) == ascii_lower(tag[1]));
        assert(ascii_lower(name[i + 2]) == ascii_lower(tag[2]));
        assert(ascii_lower(name[i + 3]) == ascii_lower(tag[3]));
        assert(ascii_lower(name[i + 4]) == ascii_lower(tag[4]));
        assert(name[i] == name[i + 0]);
    }
    if exists|i: int|
        #![trigger name[i]]
        0 <= i && i + 5 <= name.len() && (name[i] == 100u8 || name[i] == 68u8) && (name[i + 1]
            == 114u8 || name[i + 1] == 82u8) && (name[i + 2] == 117u8 || name[i + 2] == 85u8) && (
        name[i + 3] == 105u8 || name[i + 3] == 73u8) && (name[i + 4] == 100u8 || name[i + 4]
            == 68u8) {
        let i = choose|i: int|
            #![trigger name[i]]
            0 <= i && i + 5 <= name.len() && (name[i] == 100u8 || name[i] == 68u8) && (name[i
                + 1] == 114u8 || name[i + 1] == 82u8) && (name[i + 2] == 117u8 || name[i + 2]
                == 85u8) && (name[i + 3] == 105u8 || name[i + 3] == 73u8) && (name[i + 4] == 100u8
                || name[i + 4] == 68u8);
        assert forall|k: int| 0 <= k < tag.len() implies ascii_lower(#[trigger] name[i + k])
            == ascii_lower(tag[k]) by {
            if k == 0 {
                assert(name[i + k] == name[i]);
            }
        }
        assert(occurs_at_ignore_case(name, tag, i));
    }
}

/// Whether a class hint names Druid does not depend on the case of its
/// ASCII letters: two names that agree up to case are judged alike.
pub proof fn lemma_mentions_druid_ignores_case(a: Seq<u8>, b: Seq<u8>)
    requires
        a.len() == b.len(),
        forall|k: int| 0 <= k < a.len() ==> ascii_lower(#[trigger] a[k]) == ascii_lower(b[k]),
    ensures
        mentions_druid_spec(a) == mentions_druid_spec(b),
{
    let tag = druid_tag_lower();
    if mentions_druid_spec(a) {
        let i = choose|i: int| occurs_at_ignore_case(a, tag, i);
        assert forall|k: int| 0 <= k < tag.len() implies ascii_lower(#[trigger] b[i + k])
            == ascii_lower(tag[k]) by {
            assert(ascii_lower(a[i + k]) == ascii_lower(tag[k]));
        }
        assert(occurs_at_ignore_case(b, tag, i));
    }
    if mentions_druid_spec(b) {
        let i = choose|i: int| occurs_at_ignore_case(b, tag, i);
        assert forall|k: int| 0 <= k < tag.len() implies ascii_lower(#[trigger] a[i + k])
            == ascii_lower(tag[k]) by {
            assert(ascii_lower(b[i + k]) == ascii_lower(tag[k]));
        }
        assert(occurs_at_ignore_case(a, tag, i));
    }
}

/// An X11 top-level window that may be the editor's new window: it is not
/// the host's window and it did not exist before the editor was launched.
pub open spec fn is_new_window(window: u64, parent: u64, existing: Seq<u64>) -> bool {
    window != parent && !existing.contains(window)
}

/// Whether `x` occurs in `v`.
fn contains_window(v: &[u64], x: u64) -> (r: bool)
    ensures
        r == v@.contains(x),
{
    let n = v.len();
    let mut i: usize = 0;
    while i < n
        invariant
            n == v@.len(),
            i <= n,
            forall|j: int| 0 <= j < i ==> v@[j] != x,
        decreases n - i,
    {
        if v[i] == x {
            assert(v@[i as int] == x);
            return true;
        }
        i = i + 1;
    }
    false
}

/// The windows worth probing for the editor's newly opened X11 window, in
/// the order in which they are probed: the root's children newest first
/// (the stacking order lists the newest last), without the host's window
/// and without any window that already existed before the launch.
pub fn x11_candidates(windows: &[u64], parent: u64, existing: &[u64]) -> (r: Vec<u64>)
    ensures
        r@ == windows@.reverse().filter(|w: u64| is_new_window(w, parent, existing@)),
        forall|w: u64|
            #[trigger] r@.contains(w) <==> (windows@.contains(w) && w != parent
                && !existing@.contains(w)),
        r@.len() <= windows@.len(),
{
    let ghost pred = |w: u64| is_new_window(w, parent, existing@);
    let n = windows.len();
    let mut r: Vec<u64> = Vec::new();
    let mut i: usize = n;
    assert(windows@.subrange(n as int, n as int).reverse() =~= Seq::<u64>::empty());
    assert(Seq::<u64>::empty().filter(pred) =~= Seq::<u64>::empty()) by {
        reveal(Seq::filter);
    }
    while i > 0
        invariant
            n == windows@.len(),
            i <= n,
            pred == (|w: u64| is_new_window(w, parent, existing@)),
            r@ == windows@.subrange(i as int, n as int).reverse().filter(pred),
            forall|x: u64|
                #[trigger] r@.contains(x) <==> (windows@.subrange(i as int, n as int).contains(x)
                    && x != parent && !existing@.contains(x)),
            r@.len() <= n - i,
        decreases i,
    {
        i = i - 1;
        let w = windows[i];
        let ghost old_r = r@;
        assert forall|x: u64|
            windows@.subrange(i as int, n as int).contains(x) <==> (x == w || windows@.subrange(
                i + 1,
                n as int,
            ).contains(x)) by {
            let s0 = windows@.subrange(i as int, n as int);
            let s1 = windows@.subrange(i + 1, n as int);
            if s0.contains(x) {
                let j = choose|j: int| 0 <= j < s0.len() && s0[j] == x;
                if j > 0 {
                    assert(s1[j - 1] == x);
                }
            }
            if s1.contains(x) {
                let j = choose|j: int| 0 <= j < s1.len() && s1[j] == x;
                assert(s0[j + 1] == x);
            }
            if x == w {
                assert(s0[0] == x);
            }
        }
        let ghost before = windows@.subrange(i + 1, n as int);
        assert(windows@.subrange(i as int, n as int).reverse() =~= before.reverse().push(w));
        proof {
            before.reverse().lemma_filter_push(w, pred);
        }
        if w != parent && !contains_window(existing, w) {
            r.push(w);
            assert forall|x: u64| #[trigger] r@.contains(x) <==> (x == w || old_r.contains(x)) by {
                if r@.contains(x) {
                    let j = choose|j: int| 0 <= j < r@.len() && r@[j] == x;
                    if j < old_r.len() {
                        assert(old_r[j] == x);
                    }
                }
                if old_r.contains(x) {
                    let j = choose|j: int| 0 <= j < old_r.len() && old_r[j] == x;
                    assert(r@[j] == x);
                }
                if x == w {
                    assert(r@[old_r.len() as int] == x);
                }
            }
        }
    }
    assert(windows@.subrange(0, n as int) =~= windows@);
    r
}

/// The probed windows are exactly the new ones: every candidate is neither
/// the host's window nor one that existed before, and every such window
/// among the root's children is probed.
pub proof fn lemma_candidates_are_the_new_windows(windows: Seq<u64>, parent: u64, existing: Seq<u64>)
    ensures
        ({
            let c = windows.reverse().filter(|w: u64| is_new_window(w, parent, existing));
            &&& forall|i: int|
                0 <= i < c.len() ==> #[trigger] c[i] != parent && !existing.contains(c[i])
            &&& forall|w: u64|
                windows.contains(w) && w != parent && !existing.contains(w) ==> #[trigger] c.contains(
                    w,
                )
            &&& !c.contains(parent)
            &&& c.len() <= windows.len()
        }),
{
    let pred = |w: u64| is_new_window(w, parent, existing);
    let rev = windows.reverse();
    let c = rev.filter(pred);
    broadcast use vstd::seq_lib::group_filter_ensures;

    assert forall|i: int| 0 <= i < c.len() implies #[trigger] c[i] != parent && !existing.contains(c[i]) by {
        assert(pred(c[i]));
    }
    assert forall|w: u64| windows.contains(w) && w != parent && !existing.contains(w) implies #[trigger] c.contains(w) by {
        let j = choose|j: int| 0 <= j < windows.len() && windows[j] == w;
        assert(rev[windows.len() - 1 - j] == w);
        rev.lemma_filter_contains(pred, windows.len() - 1 - j);
    }
    if c.contains(parent) {
        let k = choose|k: int| 0 <= k < c.len() && c[k] == parent;
        assert(pred(c[k]));
    }
}

/// The class name of an AppKit window, where the window has one that can be
/// read as bytes, belongs to Druid.
pub open spec fn is_druid_window_entry(entry: Option<Vec<u8>>) -> bool {
    match entry {
        Some(name) => is_druid_class_name_spec(name@),
        None => false,
    }
}

/// A window of the list is Druid's exactly when its class name is known and
/// contains `Druid`; `DruidWindow` itself, of any length, qualifies.
pub proof fn lemma_druid_window_entry(entry: Option<Vec<u8>>)
    ensures
        is_druid_window_entry(entry) <==> (entry is Some && exists|i: int|
            #![trigger entry->0@[i]]
            0 <= i && i + 5 <= entry->0@.len() && entry->0@[i] == 68u8 && entry->0@[i + 1]
                == 114u8 && entry->0@[i + 2] == 117u8 && entry->0@[i + 3] == 105u8 && entry->0@[i
                + 4] == 100u8),
{
    if entry is Some {
        lemma_druid_class_name_bytes(entry->0@);
    }
}

/// Among the application's AppKit windows, listed back to front with the
/// class name of each (`None` where the window or its class name is
/// missing), the frontmost one whose class name belongs to Druid.
pub fn pick_druid_window(class_names: &Vec<Option<Vec<u8>>>) -> (r: Option<usize>)
    ensures
        match r {
            Some(i) => {
                &&& i < class_names@.len()
                &&& is_druid_window_entry(class_names@[i as int])
                &&& forall|j: int|
                    i < j < class_names@.len() ==> !is_druid_window_entry(
                        #[trigger] class_names@[j],
                    )
            },
            None => forall|j: int|
                0 <= j < class_names@.len() ==> !is_druid_window_entry(#[trigger] class_names@[j]),
        },
{
    let n = class_names.len();
    let mut i: usize = n;
    while i > 0
        invariant
            n == class_names@.len(),
            i <= n,
            forall|j: int| i <= j < n ==> !is_druid_window_entry(#[trigger] class_names@[j]),
        decreases i,
    {
        i = i - 1;
        let found = match &class_names[i] {
            Some(name) => is_druid_class_name(name.as_slice()),
            None => false,
        };
        if found {
            return Some(i);
        }
    }
    None
}

/// How to attach the editor's AppKit window to the window of the host's view.
#[derive(Clone, Copy, Debug, PartialEq, Eq, Structural)]
pub enum Reparent {
    /// The editor's window is the host's window itself: attaching it to
    /// itself is refused.
    RefuseHostWindow,
    /// Attach it, first detaching it from the other window it is attached
    /// to where `detach_first` says so.
    Attach { detach_first: bool },
}

/// Decides how to attach the editor's window `child` to the host's window
/// `host_window`, where `child_parent` is the window that `child` is attached
/// to now (`0` for none). Windows are compared by identity (their address).
pub fn plan_reparent(child: usize, host_window: usize, child_parent: usize) -> (r: Reparent)
    ensures
        child == host_window ==> r == Reparent::RefuseHostWindow,
        child != host_window ==> r == (Reparent::Attach {
            detach_first: child_parent != 0 && child_parent != host_window,
        }),
{
    if child == host_window {
        Reparent::RefuseHostWindow
    } else {
        Reparent::Attach { detach_first: child_parent != 0 && child_parent != host_window }
    }
}

} // verus!
