//! Directory entries and the listing order: hidden names dropped,
//! directories before files, names in lexicographic order.
use vstd::multiset::Multiset;
use vstd::prelude::*;

verus! {

broadcast use vstd::seq_lib::group_to_multiset_ensures;

/// One row of a directory listing.
pub struct BrowseItem {
    pub filename: String,
    pub is_dir: bool,
    pub is_hidden: bool,
}

/// A name is hidden when it starts with a dot.
pub open spec fn dot_name(name: Seq<char>) -> bool {
    name.len() > 0 && name[0] == '.'
}

/// Lexicographic order on names, by code point (the byte order of UTF-8).
pub open spec fn name_le(a: Seq<char>, b: Seq<char>) -> bool
    decreases a.len(),
{
    if a.len() == 0 {
        true
    } else if b.len() == 0 {
        false
    } else if (a[0] as u32) != (b[0] as u32) {
        (a[0] as u32) < (b[0] as u32)
    } else {
        name_le(a.drop_first(), b.drop_first())
    }
}

/// Listing order: a directory comes before a file; within one kind, by name.
pub open spec fn item_le(a: BrowseItem, b: BrowseItem) -> bool {
    (a.is_dir && !b.is_dir) || (a.is_dir == b.is_dir && name_le(a.filename@, b.filename@))
}

/// Every adjacent pair is in listing order.
pub open spec fn sorted_items(s: Seq<BrowseItem>) -> bool {
    forall|k: int| 0 <= k < s.len() - 1 ==> #[trigger] item_le(s[k], s[k + 1])
}

/// A listing keeps the entries whose name does not start with a dot.
pub open spec fn shown(x: BrowseItem) -> bool {
    !dot_name(x.filename@)
}

/// The entries that a listing keeps.
pub open spec fn shown_items(s: Seq<BrowseItem>) -> Seq<BrowseItem> {
    s.filter(|x: BrowseItem| shown(x))
}

/// The synthetic row that leads to the parent directory.
pub open spec fn is_parent_row(x: BrowseItem) -> bool {
    x.filename@ == seq!['.', '.'] && x.is_dir && !x.is_hidden
}

/// `r` is the listing of what was read from a directory (`None`: it could
/// not be read, and nothing is listed).
pub open spec fn listed(r: Seq<BrowseItem>, found: Option<Vec<BrowseItem>>, parent_exists: bool) -> bool {
    match found {
        None => r.len() == 0,
        Some(v) => {
            let body = if parent_exists {
                r.skip(1)
            } else {
                r
            };
            &&& parent_exists ==> r.len() >= 1 && is_parent_row(r[0])
            &&& sorted_items(body)
            &&& forall|k: int| 0 <= k < body.len() ==> !dot_name((#[trigger] body[k]).filename@)
            &&& body.to_multiset() == shown_items(v@).to_multiset()
        },
    }
}

/// Of two names, one is at most the other.
pub proof fn lemma_name_le_total(a: Seq<char>, b: Seq<char>)
    ensures
        name_le(a, b) || name_le(b, a),
    decreases a.len(),
{
    if a.len() > 0 && b.len() > 0 && (a[0] as u32) == (b[0] as u32) {
        lemma_name_le_total(a.drop_first(), b.drop_first());
    }
}

pub proof fn lemma_item_le_total(a: BrowseItem, b: BrowseItem)
    ensures
        item_le(a, b) || item_le(b, a),
{
    lemma_name_le_total(a.filename@, b.filename@);
}

impl BrowseItem {
    /// An entry as read from a directory; hidden when its name starts with a dot.
    pub fn from_entry(filename: String, is_dir: bool) -> (r: BrowseItem)
        ensures
            r.filename == filename,
            r.is_dir == is_dir,
            r.is_hidden == dot_name(filename@),
    {
        let is_hidden = starts_with_dot(filename.as_str());
        BrowseItem { filename, is_dir, is_hidden }
    }

    /// The `..` row.
    pub fn parent_row() -> (r: BrowseItem)
        ensures
            is_parent_row(r),
    {
        proof {
            reveal_strlit("..");
        }
        let filename = String::from_str("..");
        assert(filename@ =~= seq!['.', '.']);
        BrowseItem { filename, is_dir: true, is_hidden: false }
    }
}

/// Whether a name starts with a dot.
pub fn starts_with_dot(name: &str) -> (r: bool)
    ensures
        r == dot_name(name@),
{
    name.unicode_len() > 0 && name.get_char(0) == '.'
}

/// Compares two names lexicographically.
pub fn name_le_exec(a: &str, b: &str) -> (r: bool)
    ensures
        r == name_le(a@, b@),
{
    let na = a.unicode_len();
    let nb = b.unicode_len();
    let mut i: usize = 0;
    assert(a@.skip(0) =~= a@);
    assert(b@.skip(0) =~= b@);
    while i < na && i < nb
        invariant
            na == a@.len(),
            nb == b@.len(),
            i <= na,
            i <= nb,
            name_le(a@, b@) == name_le(a@.skip(i as int), b@.skip(i as int)),
        decreases na - i,
    {
        let ca = a.get_char(i);
        let cb = b.get_char(i);
        if (ca as u32) != (cb as u32) {
            return (ca as u32) < (cb as u32);
        }
        assert(a@.skip(i as int).drop_first() =~= a@.skip(i + 1));
        assert(b@.skip(i as int).drop_first() =~= b@.skip(i + 1));
        i = i + 1;
    }
    i == na
}

pub fn item_le_exec(a: &BrowseItem, b: &BrowseItem) -> (r: bool)
    ensures
        r == item_le(*a, *b),
{
    if a.is_dir != b.is_dir {
        a.is_dir
    } else {
        name_le_exec(a.filename.as_str(), b.filename.as_str())
    }
}

/// Inserts `x` before the first entry that must come after it.
fn insert_sorted(out: &mut Vec<BrowseItem>, x: BrowseItem)
    requires
        sorted_items(old(out)@),
    ensures
        sorted_items(final(out)@),
        final(out)@.to_multiset() == old(out)@.to_multiset().insert(x),
{
    let n = out.len();
    let mut p: usize = 0;
    while p < n && item_le_exec(&out[p], &x)
        invariant
            n == out@.len(),
            p <= n,
            forall|k: int| 0 <= k < p ==> item_le(#[trigger] out@[k], x),
        decreases n - p,
    {
        p = p + 1;
    }
    proof {
        if p < n {
            lemma_item_le_total(out@[p as int], x);
        }
    }
    let ghost before = out@;
    out.insert(p, x);
    proof {
        assert forall|k: int| 0 <= k < out@.len() - 1 implies #[trigger] item_le(
            out@[k],
            out@[k + 1],
        ) by {
            if k < p - 1 {
                assert(item_le(before[k], before[k + 1]));
            } else if k == p - 1 {
            } else if k == p {
            } else {
                let j = k - 1;
                assert(item_le(before[j], before[j + 1]));
            }
        }
    }
}

/// Builds a listing from the entries read from a directory: entries whose
/// name starts with a dot are dropped, the rest put in listing order, and a `..` row goes first
/// when the directory has a parent. A directory that could not be read
/// (`None`) lists nothing.
pub fn listing(found: Option<Vec<BrowseItem>>, parent_exists: bool) -> (r: Vec<BrowseItem>)
    ensures
        listed(r@, found, parent_exists),
{
    let ghost found0 = found;
    match found {
        None => {
            let r: Vec<BrowseItem> = Vec::new();
            assert(r@.len() == 0);
            r
        },
        Some(items) => {
            let ghost all = items@;
            let mut rest = items;
            let mut out: Vec<BrowseItem> = Vec::new();
            while rest.len() > 0
                invariant
                    sorted_items(out@),
                    forall|k: int| 0 <= k < out@.len() ==> !dot_name((#[trigger] out@[k]).filename@),
                    out@.to_multiset().add(shown_items(rest@).to_multiset())
                        == shown_items(all).to_multiset(),
                decreases rest@.len(),
            {
                let ghost before = rest@;
                let x = rest.pop().unwrap();
                proof {
                    assert(before =~= rest@.push(x));
                    before.drop_last().lemma_filter_push(x, |y: BrowseItem| shown(y));
                }
                if !starts_with_dot(x.filename.as_str()) {
                    let ghost prev = out@;
                    insert_sorted(&mut out, x);
                    proof {
                        assert forall|k: int| 0 <= k < out@.len() implies !dot_name(
                            (#[trigger] out@[k]).filename@,
                        ) by {
                            assert(out@.to_multiset().count(out@[k]) > 0);
                            if out@[k] != x {
                                assert(prev.to_multiset().count(out@[k]) > 0);
                                assert(prev.contains(out@[k]));
                            }
                        }
                        assert(out@.to_multiset().add(shown_items(rest@).to_multiset())
                            =~= prev.to_multiset().add(shown_items(before).to_multiset()));
                    }
                }
            }
            proof {
                assert(shown_items(rest@) =~= Seq::<BrowseItem>::empty());
                assert(out@.to_multiset().add(Multiset::empty()) =~= out@.to_multiset());
            }
            let ghost body = out@;
            assert(found0->0@ == all);
            assert(body.to_multiset() == shown_items(all).to_multiset());
            if parent_exists {
                out.insert(0, BrowseItem::parent_row());
                assert(out@.skip(1) =~= body);
            }
            out
        },
    }
}

} // verus!
