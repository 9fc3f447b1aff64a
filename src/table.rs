use vstd::prelude::*;

verus! {

/// A stored row. Every row has its own id, the id of the user who created it,
/// its creation time, and the id of the logical object it belongs to: for a
/// revision that is the base entity it revises, for a base entity its own id.
pub trait Record: Sized {
    spec fn row_id(&self) -> i64;

    spec fn row_creator(&self) -> i64;

    spec fn row_creation_time(&self) -> i64;

    spec fn row_base_id(&self) -> i64;

    fn id(&self) -> (r: i64)
        ensures
            r == self.row_id(),
    ;

    fn creator(&self) -> (r: i64)
        ensures
            r == self.row_creator(),
    ;

    fn created(&self) -> (r: i64)
        ensures
            r == self.row_creation_time(),
    ;

    fn base_id(&self) -> (r: i64)
        ensures
            r == self.row_base_id(),
    ;
}

/// Number of rows a query returns when it names no count.
pub const DEFAULT_COUNT: u64 = 100;

/// The options a query understands. `None` means "no restriction".
#[derive(Clone, Debug)]
pub struct RowFilter {
    pub ids: Option<Vec<i64>>,
    pub min_creation_time: Option<i64>,
    pub max_creation_time: Option<i64>,
    pub creator_user_ids: Option<Vec<i64>>,
    pub only_recent: bool,
    pub offset: Option<u64>,
    pub count: Option<u64>,
}

pub open spec fn in_set(s: Option<Vec<i64>>, x: i64) -> bool {
    match s {
        Some(v) => v@.contains(x),
        None => true,
    }
}

pub open spec fn at_least(bound: Option<i64>, x: i64) -> bool {
    match bound {
        Some(b) => b <= x,
        None => true,
    }
}

pub open spec fn at_most(bound: Option<i64>, x: i64) -> bool {
    match bound {
        Some(b) => x <= b,
        None => true,
    }
}

/// No row of `rows` that belongs to the same logical object has a higher id.
pub open spec fn is_latest<T: Record>(rows: Seq<T>, r: T) -> bool {
    forall|j: int|
        0 <= j < rows.len() && (#[trigger] rows[j]).row_base_id() == r.row_base_id()
            ==> rows[j].row_id() <= r.row_id()
}

/// Whether the filter keeps row `r` of the table `rows`.
pub open spec fn admits<T: Record>(f: RowFilter, rows: Seq<T>, r: T) -> bool {
    &&& in_set(f.ids, r.row_id())
    &&& at_least(f.min_creation_time, r.row_creation_time())
    &&& at_most(f.max_creation_time, r.row_creation_time())
    &&& in_set(f.creator_user_ids, r.row_creator())
    &&& f.only_recent ==> is_latest(rows, r)
}

/// The rows among the first `n` of `rows` that the filter keeps, in table order.
pub open spec fn matching<T: Record>(f: RowFilter, rows: Seq<T>, n: int) -> Seq<T>
    decreases n,
{
    if n <= 0 {
        Seq::empty()
    } else {
        let s = matching(f, rows, n - 1);
        if admits(f, rows, rows[n - 1]) {
            s.push(rows[n - 1])
        } else {
            s
        }
    }
}

pub open spec fn page_start(len: int, offset: Option<u64>) -> int {
    match offset {
        Some(o) => if o as int <= len {
            o as int
        } else {
            len
        },
        None => 0,
    }
}

pub open spec fn page_end(len: int, offset: Option<u64>, count: Option<u64>) -> int {
    let n = match count {
        Some(c) => c as int,
        None => DEFAULT_COUNT as int,
    };
    if page_start(len, offset) + n <= len {
        page_start(len, offset) + n
    } else {
        len
    }
}

/// The window `[offset, offset + count)` of `s`, cut to its length.
pub open spec fn page<T>(s: Seq<T>, offset: Option<u64>, count: Option<u64>) -> Seq<T> {
    s.subrange(page_start(s.len() as int, offset), page_end(s.len() as int, offset, count))
}

/// What a query with filter `f` returns from the table `rows`.
pub open spec fn selection<T: Record>(f: RowFilter, rows: Seq<T>) -> Seq<T> {
    page(matching(f, rows, rows.len() as int), f.offset, f.count)
}

/// Ids equal to position plus one.
pub open spec fn ids_in_order<T: Record>(rows: Seq<T>) -> bool {
    forall|i: int| 0 <= i < rows.len() ==> (#[trigger] rows[i]).row_id() == i + 1
}

proof fn lemma_matching_members<T: Record>(f: RowFilter, rows: Seq<T>, n: int)
    requires
        0 <= n <= rows.len(),
    ensures
        forall|x: T|
            matching(f, rows, n).contains(x) <==> exists|i: int|
                0 <= i < n && rows[i] == x && admits(f, rows, x),
    decreases n,
{
    if n > 0 {
        lemma_matching_members(f, rows, n - 1);
        let s = matching(f, rows, n - 1);
        let m = matching(f, rows, n);
        assert forall|x: T| m.contains(x) implies exists|i: int|
            0 <= i < n && rows[i] == x && admits(f, rows, x) by {
            let k = choose|k: int| 0 <= k < m.len() && m[k] == x;
            if k < s.len() {
                assert(m[k] == s[k]);
                assert(s.contains(x));
            } else {
                assert(rows[n - 1] == x && admits(f, rows, x));
            }
        }
        assert forall|x: T|
            (exists|i: int| 0 <= i < n && rows[i] == x && admits(f, rows, x)) implies m.contains(
            x,
        ) by {
            let i = choose|i: int| 0 <= i < n && rows[i] == x && admits(f, rows, x);
            if i == n - 1 {
                assert(m[s.len() as int] == x);
            } else {
                assert(0 <= i < n - 1 && rows[i] == x && admits(f, rows, x));
                assert(s.contains(x));
                let k = choose|k: int| 0 <= k < s.len() && s[k] == x;
                assert(m[k] == x);
            }
        }
    }
}

proof fn lemma_matching_ascending<T: Record>(f: RowFilter, rows: Seq<T>, n: int)
    requires
        0 <= n <= rows.len(),
        ids_in_order(rows),
    ensures
        forall|i: int| 0 <= i < matching(f, rows, n).len() ==>
            (#[trigger] matching(f, rows, n)[i]).row_id() <= n,
        forall|i: int, j: int|
            0 <= i < j < matching(f, rows, n).len() ==>
                (#[trigger] matching(f, rows, n)[i]).row_id()
                < (#[trigger] matching(f, rows, n)[j]).row_id(),
    decreases n,
{
    if n > 0 {
        lemma_matching_ascending(f, rows, n - 1);
        let s = matching(f, rows, n - 1);
        let m = matching(f, rows, n);
        assert(rows[n - 1].row_id() == n);
        assert forall|i: int| 0 <= i < m.len() implies (#[trigger] m[i]).row_id() <= n by {
            if i < s.len() {
                assert(m[i] == s[i]);
            }
        }
        assert forall|i: int, j: int| 0 <= i < j < m.len() implies (#[trigger] m[i]).row_id()
            < (#[trigger] m[j]).row_id() by {
            assert(m[i] == s[i]);
            if j < s.len() {
                assert(m[j] == s[j]);
            } else {
                assert(m[j] == rows[n - 1]);
            }
        }
    }
}

proof fn lemma_latest_exists<T: Record>(rows: Seq<T>, k: int)
    requires
        0 <= k < rows.len(),
        ids_in_order(rows),
    ensures
        exists|m: int|
            0 <= m < rows.len() && (#[trigger] rows[m]).row_base_id() == rows[k].row_base_id()
                && is_latest(rows, rows[m]),
    decreases rows.len() - k,
{
    if !is_latest(rows, rows[k]) {
        let j = choose|j: int|
            0 <= j < rows.len() && (#[trigger] rows[j]).row_base_id() == rows[k].row_base_id()
                && rows[j].row_id() > rows[k].row_id();
        lemma_latest_exists(rows, j);
    } else {
        assert(rows[k].row_base_id() == rows[k].row_base_id() && is_latest(rows, rows[k]));
    }
}

/// Some row of `s` belongs to the object `base`.
pub open spec fn has_row_of<T: Record>(s: Seq<T>, base: i64) -> bool {
    exists|i: int| 0 <= i < s.len() && (#[trigger] s[i]).row_base_id() == base
}

/// The rows among the first `n` of `s` that `user_id` created, in order.
pub open spec fn owned_by<T: Record>(s: Seq<T>, user_id: i64, n: int) -> Seq<T>
    decreases n,
{
    if n <= 0 {
        Seq::empty()
    } else {
        let t = owned_by(s, user_id, n - 1);
        if s[n - 1].row_creator() == user_id {
            t.push(s[n - 1])
        } else {
            t
        }
    }
}

/// The rows of `s` that `user_id` created, in order.
pub open spec fn visible_to<T: Record>(s: Seq<T>, user_id: i64) -> Seq<T> {
    owned_by(s, user_id, s.len() as int)
}

/// Every row a query returns is a row of the table.
pub proof fn lemma_selection_members<T: Record>(f: RowFilter, rows: Seq<T>)
    ensures
        forall|i: int|
            0 <= i < selection(f, rows).len() ==> rows.contains(#[trigger] selection(f, rows)[i]),
{
    let n = rows.len() as int;
    lemma_matching_members(f, rows, n);
    lemma_matching_len(f, rows, n);
    let m = matching(f, rows, n);
    let start = page_start(m.len() as int, f.offset);
    assert forall|i: int| 0 <= i < selection(f, rows).len() implies rows.contains(
        #[trigger] selection(f, rows)[i],
    ) by {
        assert(selection(f, rows)[i] == m[start + i]);
        assert(m.contains(m[start + i]));
    }
}

/// Every query returns its rows in strictly ascending id order.
pub proof fn lemma_selection_ascending<T: Record>(t: &Table<T>, f: RowFilter)
    requires
        t.wf(),
    ensures
        forall|i: int, j: int|
            0 <= i < j < selection(f, t@).len() ==> (#[trigger] selection(f, t@)[i]).row_id()
                < (#[trigger] selection(f, t@)[j]).row_id(),
{
    let n = t@.len() as int;
    let m = matching(f, t@, n);
    lemma_matching_ascending(f, t@, n);
    lemma_matching_len(f, t@, n);
    let start = page_start(m.len() as int, f.offset);
    assert forall|i: int, j: int| 0 <= i < j < selection(f, t@).len() implies (#[trigger] selection(
        f,
        t@,
    )[i]).row_id() < (#[trigger] selection(f, t@)[j]).row_id() by {
        assert(selection(f, t@)[i] == m[start + i]);
        assert(selection(f, t@)[j] == m[start + j]);
    }
}

/// Appending a revision makes it the latest of its object and every earlier
/// revision of that object stale.
pub proof fn lemma_append_supersedes<T: Record>(rows: Seq<T>, row: T)
    requires
        ids_in_order(rows.push(row)),
    ensures
        is_latest(rows.push(row), row),
        forall|i: int|
            0 <= i < rows.len() && rows[i].row_base_id() == row.row_base_id() ==> !is_latest(
                rows.push(row),
                #[trigger] rows[i],
            ),
{
    let all = rows.push(row);
    assert(all[rows.len() as int] == row);
    assert forall|i: int| 0 <= i < rows.len()
        && rows[i].row_base_id() == row.row_base_id() implies !is_latest(
        all,
        #[trigger] rows[i],
    ) by {
        assert(all[i] == rows[i]);
        assert(all[rows.len() as int].row_base_id() == rows[i].row_base_id());
    }
}

/// Every row that a query with further options returns is a row of the table.
pub proof fn lemma_kept_members<T: Record>(
    f: RowFilter,
    rows: Seq<T>,
    keep: spec_fn(T) -> bool,
)
    ensures
        ({
            let m = matching(f, rows, rows.len() as int);
            let out = page(keep_where(m, keep, m.len() as int), f.offset, f.count);
            forall|i: int| 0 <= i < out.len() ==> rows.contains(#[trigger] out[i])
        }),
{
    let n = rows.len() as int;
    let m = matching(f, rows, n);
    lemma_matching_members(f, rows, n);
    lemma_matching_len(f, rows, n);
    lemma_keep_where(m, keep, m.len() as int);
    let k = keep_where(m, keep, m.len() as int);
    let out = page(k, f.offset, f.count);
    let start = page_start(k.len() as int, f.offset);
    assert(m.subrange(0, m.len() as int) =~= m);
    assert forall|i: int| 0 <= i < out.len() implies rows.contains(#[trigger] out[i]) by {
        assert(out[i] == k[start + i]);
        assert(m.contains(k[start + i]));
    }
}

/// A filter that asks for the most recent revisions and nothing else.
pub open spec fn recent_only_filter(f: RowFilter, n: int) -> bool {
    &&& f.only_recent
    &&& f.ids is None
    &&& f.min_creation_time is None
    &&& f.max_creation_time is None
    &&& f.creator_user_ids is None
    &&& (f.offset is None || f.offset == Some(0u64))
    &&& f.count is Some && f.count.unwrap() as int >= n
}

/// Latest revision per object: when a query asks only for the most recent
/// revisions (and its page holds the whole table), it returns exactly the rows
/// that no later row of the same object supersedes, no stale revision, one row
/// for every object that has rows, in ascending id order.
pub proof fn lemma_only_recent<T: Record>(t: &Table<T>, f: RowFilter)
    requires
        t.wf(),
        recent_only_filter(f, t@.len() as int),
    ensures
        forall|x: T|
            selection(f, t@).contains(x) <==> (t@.contains(x) && is_latest(t@, x)),
        forall|i: int, j: int|
            0 <= i < j < selection(f, t@).len() ==> (#[trigger] selection(f, t@)[i]).row_id()
                < (#[trigger] selection(f, t@)[j]).row_id(),
        forall|i: int, j: int|
            0 <= i < j < selection(f, t@).len() ==> (#[trigger] selection(f, t@)[i]).row_base_id()
                != (#[trigger] selection(f, t@)[j]).row_base_id(),
        forall|k: int| 0 <= k < t@.len() ==>
            has_row_of(selection(f, t@), #[trigger] t@[k].row_base_id()),
{
    let rows = t@;
    let n = rows.len() as int;
    let m = matching(f, rows, n);
    lemma_matching_members(f, rows, n);
    lemma_matching_ascending(f, rows, n);
    assert(m.len() <= n) by {
        lemma_matching_len(f, rows, n);
    }
    assert(selection(f, rows) == m);
    assert forall|x: T| m.contains(x) <==> (rows.contains(x) && is_latest(rows, x)) by {
        if rows.contains(x) && is_latest(rows, x) {
            let i = choose|i: int| 0 <= i < n && rows[i] == x;
            assert(admits(f, rows, x));
        }
    }
    assert forall|i: int, j: int| 0 <= i < j < m.len() implies (#[trigger] m[i]).row_base_id()
        != (#[trigger] m[j]).row_base_id() by {
        assert(m.contains(m[i]));
        assert(m.contains(m[j]));
        let a = choose|a: int| 0 <= a < n && rows[a] == m[i] && admits(f, rows, m[i]);
        let b = choose|b: int| 0 <= b < n && rows[b] == m[j] && admits(f, rows, m[j]);
        if m[i].row_base_id() == m[j].row_base_id() {
            assert(rows[a].row_id() <= rows[b].row_id());
            assert(rows[b].row_id() <= rows[a].row_id());
        }
    }
    assert forall|k: int| 0 <= k < n implies has_row_of(m, #[trigger] rows[k].row_base_id()) by {
        lemma_latest_exists(rows, k);
        let q = choose|q: int|
            0 <= q < rows.len() && (#[trigger] rows[q]).row_base_id() == rows[k].row_base_id()
                && is_latest(rows, rows[q]);
        assert(admits(f, rows, rows[q]));
        assert(m.contains(rows[q]));
        let i = choose|i: int| 0 <= i < m.len() && m[i] == rows[q];
        assert(m[i].row_base_id() == rows[k].row_base_id());
    }
}

proof fn lemma_matching_len<T: Record>(f: RowFilter, rows: Seq<T>, n: int)
    requires
        0 <= n <= rows.len(),
    ensures
        matching(f, rows, n).len() <= n,
    decreases n,
{
    if n > 0 {
        lemma_matching_len(f, rows, n - 1);
    }
}

/// Whether `id` names a row of a table with ids 1, 2, ..., `s.len()`.
pub open spec fn has_id<T>(s: Seq<T>, id: i64) -> bool {
    1 <= id <= s.len()
}

/// The rows that the references point to.
pub open spec fn derefs<T>(s: Seq<&T>) -> Seq<T> {
    s.map_values(|x: &T| *x)
}

pub open spec fn deref_opt<T>(o: Option<&T>) -> Option<T> {
    match o {
        Some(x) => Some(*x),
        None => None,
    }
}

/// An append-only table whose row ids are 1, 2, 3, ... in insertion order.
pub struct Table<T> {
    rows: Vec<T>,
}

impl<T> View for Table<T> {
    type V = Seq<T>;

    closed spec fn view(&self) -> Seq<T> {
        self.rows@
    }
}

pub fn contains(v: &Vec<i64>, x: i64) -> (r: bool)
    ensures
        r == v@.contains(x),
{
    let mut i: usize = 0;
    while i < v.len()
        invariant
            0 <= i <= v@.len(),
            forall|j: int| 0 <= j < i ==> v@[j] != x,
        decreases v@.len() - i,
    {
        if v[i] == x {
            assert(v@[i as int] == x);
            return true;
        }
        i = i + 1;
    }
    false
}

pub fn in_set_exec(s: &Option<Vec<i64>>, x: i64) -> (r: bool)
    ensures
        r == in_set(*s, x),
{
    match s {
        Some(v) => contains(v, x),
        None => true,
    }
}

impl<T: Record> Table<T> {
    pub open spec fn wf(&self) -> bool {
        &&& self@.len() < i64::MAX
        &&& ids_in_order(self@)
    }

    /// The row with id `id`, if there is one.
    pub open spec fn lookup(&self, id: i64) -> Option<T> {
        if 1 <= id <= self@.len() {
            Some(self@[id - 1])
        } else {
            None
        }
    }

    /// The id that the next inserted row receives.
    pub open spec fn next_id(&self) -> int {
        (self@.len() + 1) as int
    }

    /// Whether one more row fits.
    pub open spec fn has_room(&self) -> bool {
        self@.len() + 1 < i64::MAX
    }

    pub fn new() -> (r: Self)
        ensures
            r@ == Seq::<T>::empty(),
            r.wf(),
    {
        Table { rows: Vec::new() }
    }

    pub fn len(&self) -> (r: usize)
        ensures
            r == self@.len(),
    {
        self.rows.len()
    }

    pub fn room(&self) -> (r: bool)
        requires
            self.wf(),
        ensures
            r == self.has_room(),
    {
        (self.rows.len() as u128) + 1 < (i64::MAX as u128)
    }

    /// The id the next row will get; the table must have room.
    pub fn fresh_id(&self) -> (r: i64)
        requires
            self.wf(),
            self.has_room(),
        ensures
            r == self.next_id(),
    {
        (self.rows.len() as i64) + 1
    }

    pub fn insert(&mut self, row: T)
        requires
            old(self).wf(),
            old(self).has_room(),
            row.row_id() == old(self).next_id(),
        ensures
            final(self)@ == old(self)@.push(row),
            final(self).wf(),
    {
        self.rows.push(row);
    }

    pub fn has(&self, id: i64) -> (r: bool)
        requires
            self.wf(),
        ensures
            r == has_id(self@, id),
    {
        1 <= id && id <= self.rows.len() as i64
    }

    pub fn get(&self, id: i64) -> (r: Option<&T>)
        requires
            self.wf(),
        ensures
            deref_opt(r) == self.lookup(id),
    {
        if 1 <= id && id <= self.rows.len() as i64 {
            Some(&self.rows[(id - 1) as usize])
        } else {
            None
        }
    }

    fn latest_at_index(&self, i: usize) -> (r: bool)
        requires
            i < self@.len(),
        ensures
            r == is_latest(self@, self@[i as int]),
    {
        let base = self.rows[i].base_id();
        let id = self.rows[i].id();
        let mut j: usize = 0;
        while j < self.rows.len()
            invariant
                0 <= j <= self@.len(),
                base == self@[i as int].row_base_id(),
                id == self@[i as int].row_id(),
                forall|k: int|
                    0 <= k < j && (#[trigger] self@[k]).row_base_id() == base ==> self@[k].row_id()
                        <= id,
            decreases self@.len() - j,
        {
            if self.rows[j].base_id() == base && self.rows[j].id() > id {
                return false;
            }
            j = j + 1;
        }
        true
    }

    fn admits_at(&self, f: &RowFilter, i: usize) -> (r: bool)
        requires
            i < self@.len(),
        ensures
            r == admits(*f, self@, self@[i as int]),
    {
        let row = &self.rows[i];
        let t = row.created();
        in_set_exec(&f.ids, row.id()) && match f.min_creation_time {
            Some(b) => b <= t,
            None => true,
        } && match f.max_creation_time {
            Some(b) => t <= b,
            None => true,
        } && in_set_exec(
            &f.creator_user_ids,
            row.creator(),
        ) && (!f.only_recent || self.latest_at_index(i))
    }

    /// The rows the filter keeps, ordered by ascending id, not yet paginated.
    pub fn matching_rows<'a>(&'a self, f: &RowFilter) -> (r: Vec<&'a T>)
        ensures
            derefs(r@) == matching(*f, self@, self@.len() as int),
    {
        let mut matched: Vec<&'a T> = Vec::new();
        let mut i: usize = 0;
        while i < self.rows.len()
            invariant
                0 <= i <= self@.len(),
                derefs(matched@) == matching(*f, self@, i as int),
            decreases self@.len() - i,
        {
            if self.admits_at(f, i) {
                matched.push(&self.rows[i]);
            }
            assert(derefs(matched@) =~= matching(*f, self@, i + 1));
            i = i + 1;
        }
        matched
    }

    /// The rows the filter keeps, ordered by ascending id, then paginated.
    pub fn query<'a>(&'a self, f: &RowFilter) -> (r: Vec<&'a T>)
        requires
            self.wf(),
        ensures
            derefs(r@) == selection(*f, self@),
    {
        page_rows(self.matching_rows(f), f.offset, f.count)
    }

    /// The row at position `i`.
    pub fn row(&self, i: usize) -> (r: &T)
        requires
            i < self@.len(),
        ensures
            *r == self@[i as int],
    {
        &self.rows[i]
    }

    /// Whether no later row of the same object follows the row at position `i`.
    pub fn latest_at(&self, i: usize) -> (r: bool)
        requires
            i < self@.len(),
        ensures
            r == is_latest(self@, self@[i as int]),
    {
        self.latest_at_index(i)
    }
}

/// The window `[offset, offset + count)` of `v`, cut to its length.
pub fn page_rows<'a, T>(v: Vec<&'a T>, offset: Option<u64>, count: Option<u64>) -> (r: Vec<&'a T>)
    ensures
        derefs(r@) == page(derefs(v@), offset, count),
{
    let len = v.len();
    let start: usize = match offset {
        Some(o) => if (o as u128) <= (len as u128) {
            o as usize
        } else {
            len
        },
        None => 0,
    };
    let n: u64 = match count {
        Some(c) => c,
        None => DEFAULT_COUNT,
    };
    let end: usize = if (start as u128) + (n as u128) <= (len as u128) {
        start + (n as usize)
    } else {
        len
    };
    let mut out: Vec<&'a T> = Vec::new();
    let mut k: usize = start;
    while k < end
        invariant
            start <= k <= end <= v@.len(),
            out@ == v@.subrange(start as int, k as int),
        decreases end - k,
    {
        out.push(v[k]);
        assert(out@ =~= v@.subrange(start as int, k + 1));
        k = k + 1;
    }
    assert(derefs(out@) =~= derefs(v@).subrange(start as int, end as int));
    out
}

/// The rows among the first `n` of `s` that `keep` holds of, in order.
pub open spec fn keep_where<T>(s: Seq<T>, keep: spec_fn(T) -> bool, n: int) -> Seq<T>
    decreases n,
{
    if n <= 0 {
        Seq::empty()
    } else {
        let t = keep_where(s, keep, n - 1);
        if keep(s[n - 1]) {
            t.push(s[n - 1])
        } else {
            t
        }
    }
}

/// What `keep_where` keeps comes from `s` and satisfies `keep`; when `keep`
/// holds of every row, nothing is dropped.
pub proof fn lemma_keep_where<T>(s: Seq<T>, keep: spec_fn(T) -> bool, n: int)
    requires
        0 <= n <= s.len(),
    ensures
        keep_where(s, keep, n).len() <= n,
        forall|i: int|
            0 <= i < keep_where(s, keep, n).len() ==> s.subrange(0, n).contains(
                #[trigger] keep_where(s, keep, n)[i],
            ) && keep(keep_where(s, keep, n)[i]),
        (forall|x: T| #[trigger] keep(x)) ==> keep_where(s, keep, n) == s.subrange(0, n),
    decreases n,
{
    if n > 0 {
        lemma_keep_where(s, keep, n - 1);
        let t = keep_where(s, keep, n - 1);
        let k = keep_where(s, keep, n);
        assert forall|i: int| 0 <= i < k.len() implies s.subrange(0, n).contains(#[trigger] k[i])
            && keep(k[i]) by {
            if i < t.len() {
                assert(k[i] == t[i]);
                assert(s.subrange(0, n - 1).contains(t[i]));
                let j = choose|j: int| 0 <= j < n - 1 && #[trigger] s.subrange(0, n - 1)[j] == t[i];
                assert(s.subrange(0, n)[j] == t[i]);
            } else {
                assert(k[i] == s[n - 1]);
                assert(s.subrange(0, n)[n - 1] == s[n - 1]);
            }
        }
        if forall|x: T| #[trigger] keep(x) {
            assert(keep(s[n - 1]));
            assert(k =~= s.subrange(0, n));
        }
    }
}

} // verus!
