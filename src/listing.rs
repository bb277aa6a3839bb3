//! Which listed keys are kept, and what `ls` prints for them.

use vstd::prelude::*;
use vstd::string::StringExecFns;
use crate::text::contains;
use crate::text::text_contains;

verus! {

/// The key of one listed entry; an entry without a key counts as the empty key.
pub open spec fn entry_key(e: Option<Seq<char>>) -> Seq<char> {
    match e {
        Some(k) => k,
        None => Seq::empty(),
    }
}

/// The keys of one listing page, in the order the provider returned them; a
/// page without an object list has no keys.
pub open spec fn page_keys(page: Option<Seq<Option<Seq<char>>>>) -> Seq<Seq<char>> {
    match page {
        Some(es) => es.map_values(|e: Option<Seq<char>>| entry_key(e)),
        None => Seq::empty(),
    }
}

/// What `ls` prints for `keys`: each key followed by a newline.
pub open spec fn ls_text(keys: Seq<Seq<char>>) -> Seq<char>
    decreases keys.len(),
{
    if keys.len() == 0 {
        Seq::empty()
    } else {
        ls_text(keys.drop_last()) + keys.last() + seq!['\n']
    }
}

/// One enumeration of a bucket: the bucket, the start key (both the listing
/// cursor and a substring every kept key must hold), an optional substring a
/// kept key must also hold and an optional one it must not hold.
pub struct S3Ctx {
    pub bucket: String,
    pub key: String,
    pub filter: Option<String>,
    pub ng_filter: Option<String>,
}

impl S3Ctx {
    /// Whether a listed key `k` is kept.
    pub open spec fn passes(&self, k: Seq<char>) -> bool {
        &&& text_contains(k, self.key@)
        &&& match self.filter {
            Some(f) => text_contains(k, f@),
            None => true,
        }
        &&& match self.ng_filter {
            Some(g) => !text_contains(k, g@),
            None => true,
        }
    }

    /// The keys of `keys` that are kept, in their order.
    pub open spec fn kept(&self, keys: Seq<Seq<char>>) -> Seq<Seq<char>>
        decreases keys.len(),
    {
        if keys.len() == 0 {
            Seq::empty()
        } else if self.passes(keys.last()) {
            self.kept(keys.drop_last()).push(keys.last())
        } else {
            self.kept(keys.drop_last())
        }
    }

    pub fn new(bucket: &str, key: &str, filter: Option<&str>, ng_filter: Option<&str>) -> (r: S3Ctx)
        ensures
            r.bucket@ == bucket@,
            r.key@ == key@,
            r.filter.deep_view() == filter.deep_view(),
            r.ng_filter.deep_view() == ng_filter.deep_view(),
    {
        S3Ctx {
            bucket: bucket.to_owned(),
            key: key.to_owned(),
            filter: match filter {
                Some(f) => Some(f.to_owned()),
                None => None,
            },
            ng_filter: match ng_filter {
                Some(g) => Some(g.to_owned()),
                None => None,
            },
        }
    }

    /// Whether the listed key `k` is kept.
    pub fn key_passes(&self, k: &str) -> (r: bool)
        ensures
            r == self.passes(k@),
    {
        if !contains(k, self.key.as_str()) {
            return false;
        }
        match &self.filter {
            Some(f) => {
                if !contains(k, f.as_str()) {
                    return false;
                }
            },
            None => {},
        }
        match &self.ng_filter {
            Some(g) => !contains(k, g.as_str()),
            None => true,
        }
    }

    /// The kept keys among the entries of one listing page, in their order.
    pub fn select(&self, entries: &Vec<Option<String>>) -> (r: Vec<String>)
        ensures
            r.deep_view() == self.kept(page_keys(Some(entries.deep_view()))),
    {
        let ghost all = page_keys(Some(entries.deep_view()));
        let mut out: Vec<String> = Vec::new();
        let mut i: usize = 0;
        while i < entries.len()
            invariant
                i <= entries@.len(),
                all == page_keys(Some(entries.deep_view())),
                all.len() == entries@.len(),
                out.deep_view() == self.kept(all.subrange(0, i as int)),
            decreases entries@.len() - i,
        {
            let k = match &entries[i] {
                Some(s) => s.clone(),
                None => String::new(),
            };
            assert(k@ == all[i as int]);
            let ghost before = out.deep_view();
            proof {
                assert(all.subrange(0, i + 1).drop_last() =~= all.subrange(0, i as int));
            }
            if self.key_passes(k.as_str()) {
                out.push(k);
                assert(out.deep_view() =~= before.push(all[i as int]));
            }
            i = i + 1;
        }
        assert(all.subrange(0, entries@.len() as int) =~= all);
        out
    }

    /// The kept keys of one listing call. A failed listing hands its error on;
    /// a page without an object list gives no keys.
    pub fn keys<E>(&self, listing: Result<Option<Vec<Option<String>>>, E>) -> (r: Result<
        Vec<String>,
        E,
    >)
        ensures
            match listing {
                Ok(page) => r matches Ok(v) && v.deep_view() == self.kept(
                    page_keys(page.deep_view()),
                ),
                Err(e) => r == Err::<Vec<String>, E>(e),
            },
    {
        match listing {
            Ok(Some(entries)) => Ok(self.select(&entries)),
            Ok(None) => {
                assert(self.kept(Seq::empty()) =~= Seq::empty());
                let v: Vec<String> = Vec::new();
                assert(v.deep_view() =~= Seq::empty());
                Ok(v)
            },
            Err(e) => Err(e),
        }
    }

    /// What `ls` prints for one listing call: the kept keys, one per line.
    /// A failed listing hands its error on and prints nothing.
    pub fn list_objects<E>(&self, listing: Result<Option<Vec<Option<String>>>, E>) -> (r: Result<
        String,
        E,
    >)
        ensures
            match listing {
                Ok(page) => r matches Ok(t) && t@ == ls_text(self.kept(page_keys(page.deep_view()))),
                Err(e) => r == Err::<String, E>(e),
            },
    {
        match self.keys(listing) {
            Ok(v) => Ok(lines_of(&v)),
            Err(e) => Err(e),
        }
    }
}

/// A listed key is kept if and only if it was listed and passes every filter.
pub proof fn lemma_kept_iff(ctx: &S3Ctx, keys: Seq<Seq<char>>, k: Seq<char>)
    ensures
        ctx.kept(keys).contains(k) <==> keys.contains(k) && ctx.passes(k),
    decreases keys.len(),
{
    if keys.len() > 0 {
        let rest = keys.drop_last();
        lemma_kept_iff(ctx, rest, k);
        assert(keys =~= rest.push(keys.last()));
        if ctx.passes(keys.last()) {
            let sub = ctx.kept(rest);
            assert(sub.push(keys.last()).last() == keys.last());
            if sub.push(keys.last()).contains(k) {
                let j = choose|j: int| 0 <= j < sub.push(keys.last()).len() && sub.push(keys.last())[j] == k;
                if j < sub.len() {
                    assert(sub[j] == k);
                }
            }
            if sub.contains(k) {
                let j = choose|j: int| 0 <= j < sub.len() && sub[j] == k;
                assert(sub.push(keys.last())[j] == k);
            }
        }
        if keys.contains(k) {
            let j = choose|j: int| 0 <= j < keys.len() && keys[j] == k;
            if j < rest.len() {
                assert(rest[j] == k);
            }
        }
        if rest.contains(k) {
            let j = choose|j: int| 0 <= j < rest.len() && rest[j] == k;
            assert(keys[j] == k);
        }
    }
}

/// Which keys are kept depends only on the start key and the two filters, so
/// two enumerations with the same filters over the same listing keep the same
/// keys, and `ls` prints the same text for them.
pub proof fn lemma_ls_repeatable(
    c1: &S3Ctx,
    c2: &S3Ctx,
    page: Option<Seq<Option<Seq<char>>>>,
)
    requires
        c1.key@ == c2.key@,
        c1.filter.deep_view() == c2.filter.deep_view(),
        c1.ng_filter.deep_view() == c2.ng_filter.deep_view(),
    ensures
        c1.kept(page_keys(page)) == c2.kept(page_keys(page)),
        ls_text(c1.kept(page_keys(page))) == ls_text(c2.kept(page_keys(page))),
{
    lemma_kept_same_filters(c1, c2, page_keys(page));
}

proof fn lemma_kept_same_filters(c1: &S3Ctx, c2: &S3Ctx, keys: Seq<Seq<char>>)
    requires
        c1.key@ == c2.key@,
        c1.filter.deep_view() == c2.filter.deep_view(),
        c1.ng_filter.deep_view() == c2.ng_filter.deep_view(),
    ensures
        c1.kept(keys) == c2.kept(keys),
    decreases keys.len(),
{
    if keys.len() > 0 {
        lemma_kept_same_filters(c1, c2, keys.drop_last());
        assert(c1.passes(keys.last()) == c2.passes(keys.last()));
    }
}

/// A listing with no entries, or with no object list at all, keeps no key:
/// `ls` prints nothing and `cat` has nothing to fetch.
pub proof fn lemma_empty_listing(ctx: &S3Ctx, page: Option<Seq<Option<Seq<char>>>>)
    requires
        page_keys(page).len() == 0,
    ensures
        ctx.kept(page_keys(page)).len() == 0,
        ls_text(ctx.kept(page_keys(page))) == Seq::<char>::empty(),
{
}

/// The text `ls` prints for `keys`: one key per line.
pub fn lines_of(keys: &Vec<String>) -> (r: String)
    ensures
        r@ == ls_text(keys.deep_view()),
{
    let ghost ks = keys.deep_view();
    let mut out = String::new();
    let mut i: usize = 0;
    while i < keys.len()
        invariant
            i <= keys@.len(),
            ks == keys.deep_view(),
            out@ == ls_text(ks.subrange(0, i as int)),
        decreases keys@.len() - i,
    {
        proof {
            reveal_strlit("\n");
            assert(ks.subrange(0, i + 1).drop_last() =~= ks.subrange(0, i as int));
        }
        out.append(keys[i].as_str());
        out.append("\n");
        i = i + 1;
    }
    assert(ks.subrange(0, keys@.len() as int) =~= ks);
    out
}

} // verus!
