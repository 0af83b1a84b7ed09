//! The fixed set of headers sent with every request.
use vstd::prelude::*;

use crate::text::same_text;

verus! {

/// A header as characters: name, then value.
pub type HeaderView = (Seq<char>, Seq<char>);

/// Content type and accepted type of every request.
pub const CONTENT_TYPE_JSON: &'static str = "application/json";

/// Name of the content type header.
pub const CONTENT_TYPE: &'static str = "content-type";

/// Name of the accept header.
pub const ACCEPT: &'static str = "accept";

/// Whether no name occurs twice.
pub open spec fn unique_names(s: Seq<HeaderView>) -> bool {
    forall|i: int, j: int| 0 <= i < j < s.len() ==> s[i].0 != s[j].0
}

/// Whether `k` is the name of some header of `s`.
pub open spec fn has_name(s: Seq<HeaderView>, k: Seq<char>) -> bool {
    exists|i: int| 0 <= i < s.len() && s[i].0 == k
}

/// `s` after setting `k` to `v`: a present name keeps its place and takes
/// the new value, a new name goes last.
pub open spec fn inserted(s: Seq<HeaderView>, k: Seq<char>, v: Seq<char>) -> Seq<HeaderView> {
    if has_name(s, k) {
        let i = choose|i: int| 0 <= i < s.len() && s[i].0 == k;
        s.update(i, (k, v))
    } else {
        s.push((k, v))
    }
}

/// `s` after setting each header of `items` in turn.
pub open spec fn inserted_all(s: Seq<HeaderView>, items: Seq<HeaderView>) -> Seq<HeaderView>
    decreases items.len(),
{
    if items.len() == 0 {
        s
    } else {
        let last = items.last();
        inserted(inserted_all(s, items.drop_last()), last.0, last.1)
    }
}

/// The two headers that come first in every set.
pub open spec fn default_headers() -> Seq<HeaderView> {
    seq![(CONTENT_TYPE@, CONTENT_TYPE_JSON@), (ACCEPT@, CONTENT_TYPE_JSON@)]
}

/// The header set built from the defaults and then `custom`, in order.
pub open spec fn cached_headers(custom: Seq<HeaderView>) -> Seq<HeaderView> {
    inserted_all(seq![], default_headers() + custom)
}

/// The characters of each header of a list.
pub open spec fn headers_view(v: Seq<(String, String)>) -> Seq<HeaderView> {
    v.map_values(|e: (String, String)| (e.0@, e.1@))
}

/// An ordered map from header names to values; names are unique.
#[derive(Debug, Clone)]
pub struct HeaderSet {
    entries: Vec<(String, String)>,
}

impl View for HeaderSet {
    type V = Seq<HeaderView>;

    closed spec fn view(&self) -> Seq<HeaderView> {
        headers_view(self.entries@)
    }
}

proof fn lemma_inserted_unique(s: Seq<HeaderView>, k: Seq<char>, v: Seq<char>)
    requires
        unique_names(s),
    ensures
        unique_names(inserted(s, k, v)),
{
}

proof fn lemma_inserted_all_unique(s: Seq<HeaderView>, items: Seq<HeaderView>)
    requires
        unique_names(s),
    ensures
        unique_names(inserted_all(s, items)),
    decreases items.len(),
{
    if items.len() > 0 {
        lemma_inserted_all_unique(s, items.drop_last());
        lemma_inserted_unique(inserted_all(s, items.drop_last()), items.last().0, items.last().1);
    }
}

impl HeaderSet {
    /// Names are unique.
    pub closed spec fn wf(&self) -> bool {
        unique_names(self@)
    }

    /// A set with no header.
    pub fn empty() -> (r: HeaderSet)
        ensures
            r@ == Seq::<HeaderView>::empty(),
            r.wf(),
    {
        let r = HeaderSet { entries: Vec::new() };
        assert(r@ =~= Seq::<HeaderView>::empty());
        r
    }

    /// Sets the header `key` to `value`, keeping the place of a name that is
    /// already present.
    pub fn insert(&mut self, key: String, value: String)
        requires
            old(self).wf(),
        ensures
            final(self)@ == inserted(old(self)@, key@, value@),
            final(self).wf(),
    {
        let n = self.entries.len();
        let mut i: usize = 0;
        while i < n
            invariant
                n == self.entries@.len(),
                n == self@.len(),
                self@ == old(self)@,
                self.wf(),
                i <= n,
                forall|j: int| 0 <= j < i ==> self@[j].0 != key@,
            decreases n - i,
        {
            if same_text(self.entries[i].0.as_str(), key.as_str()) {
                let ghost s = self@;
                let ghost k = key@;
                let ghost v = value@;
                proof {
                    assert(s[i as int].0 == k);
                    assert(has_name(s, k));
                    let c = choose|c: int| 0 <= c < s.len() && s[c].0 == k;
                    assert(c == i);
                }
                self.entries.set(i, (key, value));
                assert(self@ =~= s.update(i as int, (k, v)));
                proof {
                    lemma_inserted_unique(s, k, v);
                }
                return;
            }
            i = i + 1;
        }
        let ghost s = self@;
        let ghost k = key@;
        let ghost v = value@;
        assert(!has_name(s, k));
        self.entries.push((key, value));
        assert(self@ =~= s.push((k, v)));
        proof {
            lemma_inserted_unique(s, k, v);
        }
    }

    /// The two default headers, then each header of `custom` in its order.
    pub fn cached(custom: &Vec<(String, String)>) -> (r: HeaderSet)
        ensures
            r@ == cached_headers(headers_view(custom@)),
            r.wf(),
    {
        let ghost items = default_headers() + headers_view(custom@);
        let mut r = HeaderSet::empty();
        r.insert(CONTENT_TYPE.to_owned(), CONTENT_TYPE_JSON.to_owned());
        r.insert(ACCEPT.to_owned(), CONTENT_TYPE_JSON.to_owned());
        proof {
            let e = Seq::<HeaderView>::empty();
            assert(items.subrange(0, 1).drop_last() =~= e);
            assert(items.subrange(0, 2).drop_last() =~= items.subrange(0, 1));
            assert(items.subrange(0, 1).last() == (CONTENT_TYPE@, CONTENT_TYPE_JSON@));
            assert(items.subrange(0, 2).last() == (ACCEPT@, CONTENT_TYPE_JSON@));
            assert(inserted_all(e, e) == e);
            assert(inserted_all(e, items.subrange(0, 1)) == inserted(e, CONTENT_TYPE@, CONTENT_TYPE_JSON@));
        }
        let n = custom.len();
        let mut i: usize = 0;
        while i < n
            invariant
                n == custom@.len(),
                items == default_headers() + headers_view(custom@),
                i <= n,
                r.wf(),
                r@ == inserted_all(seq![], items.subrange(0, i + 2)),
            decreases n - i,
        {
            let k = custom[i].0.clone();
            let v = custom[i].1.clone();
            assert(items.subrange(0, i + 3).drop_last() =~= items.subrange(0, i + 2));
            r.insert(k, v);
            i = i + 1;
        }
        assert(items.subrange(0, n + 2) =~= items);
        r
    }

    /// The headers in wire order.
    pub fn entries(&self) -> (r: &Vec<(String, String)>)
        ensures
            headers_view(r@) == self@,
    {
        &self.entries
    }
}

} // verus!
