//! The batched, order-preserving data-loading pipeline. The loader owns an
//! ordered list of source paths and groups them into fixed-size batches:
//! batch `k` holds items `[k*b, min((k+1)*b, total))` in enumeration order,
//! so downstream index construction can assign sequential integer ids by
//! position and recover each result's path from the same list. Reading a
//! directory and decoding an image are the caller's business: the caller
//! feeds paths in, takes path batches out, and reports every per-item decode
//! outcome back through `collect_batch`, which refuses to skip a corrupt
//! source silently.

use vstd::prelude::*;
use vstd::arithmetic::div_mod::{
    lemma_fundamental_div_mod,
    lemma_fundamental_div_mod_converse,
    lemma_mod_bound,
};
use crate::error::Error;

verus! {

/// How many batches a list of `n` items yields at batch size `b`: the
/// ceiling of `n / b`.
pub open spec fn spec_num_batches(n: int, b: int) -> int {
    (n + b - 1) / b
}

/// The contents of batch `k`: the items from `k*b` up to the end of the
/// list or of the batch, whichever comes first.
pub open spec fn batch_slice<T>(items: Seq<T>, b: int, k: int) -> Seq<T> {
    items.subrange(k * b, vstd::math::min(items.len() as int, (k + 1) * b))
}

/// The first `k` batches, concatenated in order.
pub open spec fn concat_batches<T>(items: Seq<T>, b: int, k: int) -> Seq<T>
    decreases k,
{
    if k <= 0 {
        Seq::empty()
    } else {
        concat_batches(items, b, k - 1) + batch_slice(items, b, k - 1)
    }
}

/// The ordered source list with its grouping size and iteration cursor.
/// Iteration is finite and not restartable without reconstruction.
#[derive(Debug, Clone)]
pub struct DataLoader {
    paths: Vec<String>,
    batch: usize,
    cursor: usize,
}

impl Default for DataLoader {
    /// An empty enumeration at batch size 1, cursor at the start.
    fn default() -> (res: DataLoader)
        ensures
            res.spec_paths() == Seq::<String>::empty(),
            res.spec_batch() == 1,
            res.spec_cursor() == 0,
            res.wf(),
    {
        DataLoader { paths: Vec::new(), batch: 1, cursor: 0 }
    }
}

impl DataLoader {
    /// The enumerated source paths, in enumeration order.
    pub closed spec fn spec_paths(&self) -> Seq<String> {
        self.paths@
    }

    /// The grouping size.
    pub closed spec fn spec_batch(&self) -> int {
        self.batch as int
    }

    /// How many items have been yielded so far.
    pub closed spec fn spec_cursor(&self) -> int {
        self.cursor as int
    }

    /// Validity: a positive batch size and a cursor inside the list.
    pub open spec fn wf(&self) -> bool {
        &&& self.spec_batch() >= 1
        &&& 0 <= self.spec_cursor() <= self.spec_paths().len()
    }

    /// Sets the grouping size; `n` must be at least 1.
    pub fn with_batch(self, n: usize) -> (res: DataLoader)
        requires
            n >= 1,
        ensures
            res.spec_batch() == n,
            res.spec_paths() == self.spec_paths(),
            res.spec_cursor() == self.spec_cursor(),
    {
        DataLoader { batch: n, ..self }
    }

    /// Appends one source path to the enumeration. The caller enumerates a
    /// file, a directory or an explicit list and feeds the paths in, in the
    /// order they are to be processed.
    pub fn push_source(&mut self, path: String)
        ensures
            final(self).spec_paths() == old(self).spec_paths().push(path),
            final(self).spec_batch() == old(self).spec_batch(),
            final(self).spec_cursor() == old(self).spec_cursor(),
    {
        self.paths.push(path);
    }

    /// The retained path list, for result traceability.
    pub fn paths(&self) -> (r: &Vec<String>)
        ensures
            r@ == self.spec_paths(),
    {
        &self.paths
    }

    /// How many sources are enumerated.
    pub fn len(&self) -> (r: usize)
        ensures
            r == self.spec_paths().len(),
    {
        self.paths.len()
    }

    /// How many batches a full iteration yields: `ceil(len / batch)`.
    pub fn num_batches(&self) -> (r: usize)
        requires
            self.wf(),
        ensures
            r == spec_num_batches(self.spec_paths().len() as int, self.spec_batch()),
    {
        let n = self.paths.len();
        let b = self.batch;
        let q = n / b;
        let m = n % b;
        proof {
            let ni = n as int;
            let bi = b as int;
            lemma_fundamental_div_mod(ni, bi);
            lemma_mod_bound(ni, bi);
            assert((ni / bi + 1) * bi == bi * (ni / bi) + bi) by (nonlinear_arith);
            assert(ni % bi != 0 ==> ni / bi + 1 <= ni) by (nonlinear_arith)
                requires
                    ni == bi * (ni / bi) + ni % bi,
                    0 <= ni % bi < bi,
                    bi >= 1,
                    ni / bi >= 0,
            ;
            if m == 0 {
                lemma_fundamental_div_mod_converse(ni + bi - 1, bi, ni / bi, bi - 1);
            } else {
                lemma_fundamental_div_mod_converse(ni + bi - 1, bi, ni / bi + 1, ni % bi - 1);
            }
        }
        if m != 0 {
            q + 1
        } else {
            q
        }
    }

    /// Yields the next batch of paths, or `None` when the enumeration is
    /// exhausted: the batch starts at the returned index (the enumeration
    /// position of its first item), holds the next `batch` paths (fewer at
    /// the end of the list, never zero), and advances the cursor past them.
    pub fn next_batch(&mut self) -> (r: Option<(usize, Vec<String>)>)
        requires
            old(self).wf(),
        ensures
            final(self).wf(),
            final(self).spec_paths() == old(self).spec_paths(),
            final(self).spec_batch() == old(self).spec_batch(),
            r is None <==> old(self).spec_cursor() == old(self).spec_paths().len(),
            r is None ==> final(self).spec_cursor() == old(self).spec_cursor(),
            r matches Some((start, b)) ==> {
                &&& start == old(self).spec_cursor()
                &&& b@.len() == vstd::math::min(
                    old(self).spec_batch(),
                    old(self).spec_paths().len() - start,
                )
                &&& b@.len() >= 1
                &&& forall|j: int|
                    0 <= j < b@.len() ==> (#[trigger] b@[j])@ == old(self).spec_paths()[start
                        + j]@
                &&& final(self).spec_cursor() == start + b@.len()
            },
    {
        if self.cursor >= self.paths.len() {
            return None;
        }
        let start = self.cursor;
        let mut out: Vec<String> = Vec::new();
        let mut j: usize = 0;
        while j < self.batch && j < self.paths.len() - start
            invariant
                self.wf(),
                start == self.spec_cursor(),
                start < self.spec_paths().len(),
                j <= self.spec_batch(),
                start + j <= self.spec_paths().len(),
                out@.len() == j,
                forall|t: int|
                    0 <= t < j ==> (#[trigger] out@[t])@ == self.spec_paths()[start + t]@,
            decreases self.spec_batch() - j,
        {
            out.push(self.paths[start + j].clone());
            j += 1;
        }
        self.cursor = start + j;
        Some((start, out))
    }
}

/// Order preservation: for a list of `n` items grouped at batch size `b`,
/// the concatenation of all yielded batches is the original list in its
/// enumeration order; the number of batches is `ceil(n / b)`; and the last
/// batch holds `n % b` items when that is nonzero, else exactly `b`.
pub proof fn lemma_batches_preserve_order<T>(items: Seq<T>, b: int)
    requires
        b >= 1,
    ensures
        concat_batches(items, b, spec_num_batches(items.len() as int, b)) == items,
        items.len() > 0 && items.len() as int % b == 0 ==> batch_slice(
            items,
            b,
            spec_num_batches(items.len() as int, b) - 1,
        ).len() == b,
        items.len() as int % b != 0 ==> batch_slice(
            items,
            b,
            spec_num_batches(items.len() as int, b) - 1,
        ).len() == items.len() as int % b,
{
    let n = items.len() as int;
    let num = spec_num_batches(n, b);
    if n == 0 {
        lemma_fundamental_div_mod_converse(b - 1, b, 0, b - 1);
        assert(num == 0);
        assert(concat_batches(items, b, 0) =~= items);
        vstd::arithmetic::div_mod::lemma_small_mod(0, b as nat);
    } else {
        lemma_fundamental_div_mod(n, b);
        lemma_mod_bound(n, b);
        let q = n / b;
        let m = n % b;
        if m == 0 {
            assert(q * b == b * q) by (nonlinear_arith);
            lemma_fundamental_div_mod_converse(n + b - 1, b, q, b - 1);
            assert(num == q);
        } else {
            assert((q + 1) * b == b * q + b) by (nonlinear_arith);
            lemma_fundamental_div_mod_converse(n + b - 1, b, q + 1, m - 1);
            assert(num == q + 1);
        }
        assert(num * b >= n && (num - 1) * b < n) by (nonlinear_arith)
            requires
                b >= 1,
                n > 0,
                n == b * q + m,
                0 <= m < b,
                (m == 0 ==> num == q) && (m != 0 ==> num == q + 1),
        ;
        lemma_concat_batches_prefix(items, b, num);
        assert(vstd::math::min(n, num * b) == n);
        assert(concat_batches(items, b, num) =~= items);
        assert(batch_slice(items, b, num - 1).len() == n - (num - 1) * b);
        assert(m == 0 ==> n - (num - 1) * b == b) by (nonlinear_arith)
            requires
                n == b * q + m,
                0 <= m < b,
                m == 0 ==> num == q,
                n > 0,
                b >= 1,
        ;
        assert(m != 0 ==> n - (num - 1) * b == m) by (nonlinear_arith)
            requires
                n == b * q + m,
                0 <= m < b,
                m != 0 ==> num == q + 1,
        ;
    }
}

/// The first `k` batches, concatenated, are exactly the first
/// `min(len, k*b)` items.
proof fn lemma_concat_batches_prefix<T>(items: Seq<T>, b: int, k: int)
    requires
        b >= 1,
        0 <= k,
        k == 0 || (k - 1) * b < items.len(),
    ensures
        concat_batches(items, b, k) == items.subrange(
            0,
            vstd::math::min(items.len() as int, k * b),
        ),
    decreases k,
{
    let n = items.len() as int;
    if k == 0 {
        assert(concat_batches(items, b, 0) =~= items.subrange(0, 0));
    } else {
        assert((k - 2) * b < (k - 1) * b) by (nonlinear_arith)
            requires
                b >= 1,
        ;
        lemma_concat_batches_prefix(items, b, k - 1);
        assert((k - 1) * b <= k * b) by (nonlinear_arith)
            requires
                b >= 1,
        ;
        assert(concat_batches(items, b, k) =~= items.subrange(
            0,
            vstd::math::min(n, k * b),
        ));
    }
}

/// Enumeration-to-id mapping: the item at offset `j` of batch `k` is the
/// item whose enumeration position — and so whose index id — is `k*b + j`,
/// wherever the batch boundaries fall.
pub proof fn lemma_enumeration_id<T>(items: Seq<T>, b: int, k: int, j: int)
    requires
        b >= 1,
        0 <= k,
        0 <= j < b,
        k * b + j < items.len(),
    ensures
        batch_slice(items, b, k)[j] == items[k * b + j],
{
    assert(k * b <= k * b + j < (k + 1) * b) by (nonlinear_arith)
        requires
            0 <= j < b,
    ;
}

/// Pairs one batch's per-item decode outcomes back into a full batch:
/// succeeds with all decoded items, in order, only when every source
/// decoded; otherwise fails with `SourceReadError` naming the first path
/// whose item is missing — a corrupt source is never skipped silently. A
/// caller that opts into per-item continuation filters before calling.
pub fn collect_batch<T>(items: Vec<Option<T>>, paths: &Vec<String>) -> (r: Result<Vec<T>, Error>)
    requires
        items@.len() == paths@.len(),
    ensures
        r is Ok <==> (forall|i: int| 0 <= i < items@.len() ==> (#[trigger] items@[i]) is Some),
        r matches Ok(v) ==> {
            &&& v@.len() == items@.len()
            &&& forall|i: int| 0 <= i < v@.len() ==> Some(#[trigger] v@[i]) == items@[i]
        },
        r is Err ==> exists|i: int|
            {
                &&& 0 <= i < items@.len()
                &&& (#[trigger] items@[i]) is None
                &&& forall|j: int| 0 <= j < i ==> (#[trigger] items@[j]) is Some
                &&& r->Err_0 matches Error::SourceReadError(p) && p@ == paths@[i]@
            },
{
    let ghost orig = items@;
    let n = items.len();
    let mut k: usize = 0;
    while k < n
        invariant
            n == orig.len(),
            orig == items@,
            paths@.len() == orig.len(),
            k <= n,
            forall|j: int| 0 <= j < k ==> (#[trigger] orig[j]) is Some,
        decreases n - k,
    {
        if items[k].is_none() {
            let e = Error::SourceReadError(paths[k].clone());
            proof {
                assert(0 <= k < orig.len() && orig[k as int] is None);
            }
            return Err(e);
        }
        k += 1;
    }
    let mut rest = items;
    let mut out: Vec<T> = Vec::new();
    while rest.len() > 0
        invariant
            orig.len() == out@.len() + rest@.len(),
            forall|j: int| 0 <= j < orig.len() ==> (#[trigger] orig[j]) is Some,
            forall|j: int| 0 <= j < out@.len() ==> Some(#[trigger] out@[j]) == orig[j],
            forall|j: int|
                0 <= j < rest@.len() ==> (#[trigger] rest@[j]) == orig[out@.len() + j],
        decreases rest@.len(),
    {
        let item = rest.remove(0);
        match item {
            Some(v) => {
                out.push(v);
            },
            None => {
                proof {
                    assert(orig[out@.len() as int] is Some);
                    assert(false);
                }
            },
        }
    }
    Ok(out)
}

} // verus!
