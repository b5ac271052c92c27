//! Lookup tables: the families that generate table rows, and the table that a
//! circuit build loads them into.
use vstd::prelude::*;
use crate::field::Fe;
use vstd::arithmetic::div_mod::lemma_fundamental_div_mod_converse;
use vstd::arithmetic::mul::lemma_mul_is_distributive_add_other_way;

verus! {

/// One row `[x, y, z]` of a lookup table.
#[derive(Clone, Copy, Debug, PartialEq, Eq, Structural)]
pub struct TableRow {
    pub x: Fe,
    pub y: Fe,
    pub z: Fe,
}

impl TableRow {
    /// The row as three field values.
    pub open spec fn value(self) -> (int, int, int) {
        (self.x.val(), self.y.val(), self.z.val())
    }

    pub open spec fn wf(self) -> bool {
        self.x.wf() && self.y.wf() && self.z.wf()
    }

    /// Rows of equal value are the same row.
    pub proof fn lemma_value_injective(self, other: TableRow)
        requires
            self.value() == other.value(),
        ensures
            self == other,
    {
        self.x.lemma_val_injective(other.x);
        self.y.lemma_val_injective(other.y);
        self.z.lemma_val_injective(other.z);
    }

    pub fn from_u64(x: u64, y: u64, z: u64) -> (r: TableRow)
        ensures
            r.wf(),
            r.value() == (x as int, y as int, z as int),
    {
        TableRow { x: Fe::from_u64(x), y: Fe::from_u64(y), z: Fe::from_u64(z) }
    }
}

pub open spec fn rows_value(rows: Seq<TableRow>) -> Seq<(int, int, int)> {
    rows.map_values(|r: TableRow| r.value())
}

pub open spec fn rows_wf(rows: Seq<TableRow>) -> bool {
    forall|i: int| 0 <= i < rows.len() ==> #[trigger] rows[i].wf()
}

/// `r` is one of `rows`.
pub open spec fn row_in(r: (int, int, int), rows: Seq<(int, int, int)>) -> bool {
    exists|j: int| 0 <= j < rows.len() && rows[j] == r
}

/// Every row of `a` is a row of `b`.
pub open spec fn rows_subset(a: Seq<(int, int, int)>, b: Seq<(int, int, int)>) -> bool {
    forall|i: int| 0 <= i < a.len() ==> #[trigger] row_in(a[i], b)
}

/// The rows of a set family: one `[e, 0, 0]` per element.
pub open spec fn set_rows(es: Seq<u64>) -> Seq<(int, int, int)> {
    es.map_values(|e: u64| (e as int, 0int, 0int))
}

/// The rows of a one-input family: `[x, f(x), 0]` per point of the axis.
pub open spec fn map_1d_rows(xs: Seq<u64>, f: spec_fn(u64) -> u64) -> Seq<(int, int, int)> {
    xs.map_values(|x: u64| (x as int, f(x) as int, 0int))
}

/// The rows of a two-input family: `[x, y, f(x, y)]` for every `x` of the
/// first axis and, within it, every `y` of the second.
pub open spec fn map_2d_rows(xs: Seq<u64>, ys: Seq<u64>, f: spec_fn(u64, u64) -> u64) -> Seq<
    (int, int, int),
> {
    Seq::new(
        (xs.len() * ys.len()) as nat,
        |k: int|
            (
                xs[k / ys.len() as int] as int,
                ys[k % ys.len() as int] as int,
                f(xs[k / ys.len() as int], ys[k % ys.len() as int]) as int,
            ),
    )
}

/// `v` is one of the values of `axis`.
pub open spec fn on_axis(axis: Seq<u64>, v: int) -> bool {
    exists|i: int| 0 <= i < axis.len() && axis[i] as int == v
}

/// The rows of one-input family `T`.
pub open spec fn rows_1d<T: Custom1DMap + ?Sized>() -> Seq<(int, int, int)> {
    map_1d_rows(T::x_axis(), |x: u64| T::map(x))
}

/// The rows of two-input family `T`.
pub open spec fn rows_2d<T: Custom2DMap + ?Sized>() -> Seq<(int, int, int)> {
    map_2d_rows(T::x_axis(), T::y_axis(), |x: u64, y: u64| T::map(x, y))
}

/// 2 to the power `b`.
pub open spec fn pow_of_two(b: nat) -> nat
    decreases b,
{
    if b == 0 {
        1
    } else {
        2 * pow_of_two((b - 1) as nat)
    }
}

/// Powers of two grow with the exponent.
pub proof fn lemma_pow_of_two_monotone(a: nat, b: nat)
    requires
        a <= b,
    ensures
        pow_of_two(a) <= pow_of_two(b),
    decreases b,
{
    if a < b {
        lemma_pow_of_two_monotone(a, (b - 1) as nat);
    }
}

/// The integers `0, 1, ..., count - 1`.
pub open spec fn range_seq(count: nat) -> Seq<u64> {
    Seq::new(count, |i: int| i as u64)
}

/// Any family of table rows.
pub trait CustomTable {
    spec fn rows() -> Seq<(int, int, int)>;

    fn collect_rows() -> (r: Vec<TableRow>)
        ensures
            rows_wf(r@),
            rows_value(r@) == Self::rows(),
    ;
}

/// A family given by a set of values.
pub trait CustomSet {
    spec fn elements() -> Seq<u64>;

    fn collect_elements() -> (r: Vec<u64>)
        ensures
            r@ == Self::elements(),
    ;

    fn collect_rows() -> (r: Vec<TableRow>)
        ensures
            rows_wf(r@),
            rows_value(r@) == set_rows(Self::elements()),
    {
        let elements = Self::collect_elements();
        let mut rows: Vec<TableRow> = Vec::new();
        let mut i: usize = 0;
        while i < elements.len()
            invariant
                elements@ == Self::elements(),
                i <= elements@.len(),
                rows@.len() == i,
                rows_wf(rows@),
                forall|j: int| 0 <= j < i ==> #[trigger] rows@[j].value() == (elements@[j] as int, 0int, 0int),
            decreases elements@.len() - i,
        {
            rows.push(TableRow::from_u64(elements[i], 0, 0));
            i = i + 1;
        }
        assert(rows_value(rows@) =~= set_rows(Self::elements()));
        rows
    }
}

/// A family given by a function of one input, listed over its domain.
pub trait Custom1DMap {
    spec fn x_axis() -> Seq<u64>;

    spec fn map(x: u64) -> u64;

    fn lookup(x: u64) -> (y: u64)
        ensures
            y == Self::map(x),
    ;

    fn collect_x_axis() -> (r: Vec<u64>)
        ensures
            r@ == Self::x_axis(),
    ;

    fn collect_rows() -> (r: Vec<TableRow>)
        ensures
            rows_wf(r@),
            rows_value(r@) == map_1d_rows(Self::x_axis(), |x: u64| Self::map(x)),
    {
        let x_axis = Self::collect_x_axis();
        let mut rows: Vec<TableRow> = Vec::new();
        let mut i: usize = 0;
        while i < x_axis.len()
            invariant
                x_axis@ == Self::x_axis(),
                i <= x_axis@.len(),
                rows@.len() == i,
                rows_wf(rows@),
                forall|j: int| 0 <= j < i ==> #[trigger] rows@[j].value() == (
                    x_axis@[j] as int,
                    Self::map(x_axis@[j]) as int,
                    0int,
                ),
            decreases x_axis@.len() - i,
        {
            let x = x_axis[i];
            let y = Self::lookup(x);
            rows.push(TableRow::from_u64(x, y, 0));
            i = i + 1;
        }
        assert(rows_value(rows@) =~= map_1d_rows(Self::x_axis(), |x: u64| Self::map(x)));
        rows
    }
}

/// A family given by a function of two inputs, listed over the product of
/// its two axes.
pub trait Custom2DMap {
    spec fn x_axis() -> Seq<u64>;

    spec fn y_axis() -> Seq<u64>;

    spec fn map(x: u64, y: u64) -> u64;

    fn lookup(x: u64, y: u64) -> (z: u64)
        ensures
            z == Self::map(x, y),
    ;

    fn collect_x_axis() -> (r: Vec<u64>)
        ensures
            r@ == Self::x_axis(),
    ;

    fn collect_y_axis() -> (r: Vec<u64>)
        ensures
            r@ == Self::y_axis(),
    ;

    fn collect_rows() -> (r: Vec<TableRow>)
        ensures
            rows_wf(r@),
            rows_value(r@) == map_2d_rows(Self::x_axis(), Self::y_axis(), |x: u64, y: u64| Self::map(x, y)),
    {
        let x_axis = Self::collect_x_axis();
        let y_axis = Self::collect_y_axis();
        let ghost expected = map_2d_rows(Self::x_axis(), Self::y_axis(), |x: u64, y: u64| Self::map(x, y));
        let ghost ny = y_axis@.len() as int;
        let mut rows: Vec<TableRow> = Vec::new();
        let mut i: usize = 0;
        while i < x_axis.len()
            invariant
                x_axis@ == Self::x_axis(),
                y_axis@ == Self::y_axis(),
                ny == y_axis@.len(),
                expected == map_2d_rows(Self::x_axis(), Self::y_axis(), |x: u64, y: u64| Self::map(x, y)),
                i <= x_axis@.len(),
                rows@.len() == i * ny,
                rows_wf(rows@),
                forall|k: int| 0 <= k < rows@.len() ==> #[trigger] rows@[k].value() == expected[k],
            decreases x_axis@.len() - i,
        {
            let x = x_axis[i];
            let mut j: usize = 0;
            while j < y_axis.len()
                invariant
                    x_axis@ == Self::x_axis(),
                    y_axis@ == Self::y_axis(),
                    ny == y_axis@.len(),
                    expected == map_2d_rows(Self::x_axis(), Self::y_axis(), |x: u64, y: u64| Self::map(x, y)),
                    i < x_axis@.len(),
                    x == x_axis@[i as int],
                    j <= ny,
                    rows@.len() == i * ny + j,
                    rows_wf(rows@),
                    forall|k: int| 0 <= k < rows@.len() ==> #[trigger] rows@[k].value() == expected[k],
                decreases ny - j,
            {
                let y = y_axis[j];
                let z = Self::lookup(x, y);
                proof {
                    let k = i * ny + j;
                    lemma_fundamental_div_mod_converse(k, ny, i as int, j as int);
                    assert(k < x_axis@.len() * ny) by (nonlinear_arith)
                        requires
                            k == i * ny + j,
                            j < ny,
                            i < x_axis@.len(),
                    ;
                }
                rows.push(TableRow::from_u64(x, y, z));
                j = j + 1;
            }
            proof {
                lemma_mul_is_distributive_add_other_way(ny, i as int, 1);
            }
            i = i + 1;
        }
        assert(rows_value(rows@) =~= expected);
        rows
    }
}

/// Why a lookup failed.
#[derive(Clone, Copy, Debug, PartialEq, Eq, Structural)]
pub enum LookupError {
    /// The rows of the family are not all loaded in the table.
    MissingTable,
    /// No row of the family matches the looked-up values.
    NoMatch,
}

/// The rows loaded for one circuit build: the concatenation of the rows of
/// the families inserted, in order.
pub struct LookupTable {
    pub rows: Vec<TableRow>,
}

/// Searches `table[from..to]` for `row`.
fn find_row(table: &Vec<TableRow>, row: &TableRow, from: usize, to: usize) -> (r: Option<usize>)
    requires
        from <= to <= table@.len(),
    ensures
        r matches Some(j) ==> from <= j < to && table@[j as int] == *row,
        r is None ==> forall|j: int| from <= j < to ==> table@[j] != *row,
{
    let mut k = from;
    while k < to
        invariant
            from <= k <= to,
            to <= table@.len(),
            forall|j: int| from <= j < k ==> table@[j] != *row,
        decreases to - k,
    {
        if table[k] == *row {
            return Some(k);
        }
        k = k + 1;
    }
    None
}

/// The first position of `axis` whose value, as a field element, is `v`.
fn find_value(axis: &Vec<u64>, v: &Fe) -> (r: Option<usize>)
    ensures
        r matches Some(i) ==> i < axis@.len() && axis@[i as int] as int == v.val(),
        r is None ==> forall|i: int| 0 <= i < axis@.len() ==> axis@[i] as int != v.val(),
{
    let mut i: usize = 0;
    while i < axis.len()
        invariant
            i <= axis@.len(),
            forall|k: int| 0 <= k < i ==> axis@[k] as int != v.val(),
        decreases axis@.len() - i,
    {
        let e = Fe::from_u64(axis[i]);
        if e == *v {
            return Some(i);
        }
        proof {
            if axis@[i as int] as int == v.val() {
                e.lemma_val_injective(*v);
            }
        }
        i = i + 1;
    }
    None
}

impl LookupTable {
    pub open spec fn wf(self) -> bool {
        rows_wf(self.rows@)
    }

    /// The loaded rows as field values.
    pub open spec fn value(self) -> Seq<(int, int, int)> {
        rows_value(self.rows@)
    }

    pub fn new() -> (r: LookupTable)
        ensures
            r.wf(),
            r.rows@.len() == 0,
    {
        LookupTable { rows: Vec::new() }
    }

    /// Appends `rows` after the rows already loaded.
    pub fn insert_rows(&mut self, rows: &Vec<TableRow>)
        requires
            old(self).wf(),
            rows_wf(rows@),
        ensures
            final(self).wf(),
            final(self).rows@ == old(self).rows@ + rows@,
    {
        let mut i: usize = 0;
        while i < rows.len()
            invariant
                i <= rows@.len(),
                rows_wf(rows@),
                rows_wf(self.rows@),
                self.rows@ == old(self).rows@ + rows@.take(i as int),
            decreases rows@.len() - i,
        {
            self.rows.push(rows[i]);
            i = i + 1;
            assert(rows@.take(i as int) =~= rows@.take(i - 1).push(rows@[i - 1]));
        }
        assert(rows@.take(rows@.len() as int) =~= rows@);
    }

    /// Loads the rows of family `T`.
    pub fn insert_table<T: CustomTable>(&mut self)
        requires
            old(self).wf(),
        ensures
            final(self).wf(),
            final(self).value() == old(self).value() + T::rows(),
    {
        let rows = T::collect_rows();
        self.insert_rows(&rows);
        assert(rows_value(self.rows@) =~= rows_value(old(self).rows@) + rows_value(rows@));
    }

    /// Whether every one of `rows` is loaded, compared by value.
    pub fn contains_rows(&self, rows: &Vec<TableRow>) -> (r: bool)
        requires
            self.wf(),
            rows_wf(rows@),
        ensures
            r == rows_subset(rows_value(rows@), self.value()),
    {
        let n = self.rows.len();
        let ghost table = self.value();
        let ghost wanted = rows_value(rows@);
        let mut start: usize = 0;
        let mut i: usize = 0;
        assert(wanted.len() == rows@.len());
        while i < rows.len()
            invariant
                self.wf(),
                rows_wf(rows@),
                n == self.rows@.len(),
                table == self.value(),
                wanted == rows_value(rows@),
                i <= rows@.len(),
                start <= n,
                wanted.len() == rows@.len(),
                forall|m: int| 0 <= m < i ==> #[trigger] row_in(wanted[m], table),
            decreases rows@.len() - i,
        {
            let row = rows[i];
            // Rows of one family usually stand together: search on from the
            // last match first.
            let mut found = find_row(&self.rows, &row, start, n);
            if found.is_none() {
                found = find_row(&self.rows, &row, 0, start);
            }
            match found {
                Some(j) => {
                    assert(table[j as int] == wanted[i as int]);
                    assert(row_in(wanted[i as int], table));
                    start = j + 1;
                },
                None => {
                    proof {
                        assert forall|j: int| 0 <= j < table.len() implies table[j] != wanted[i as int] by {
                            if table[j] == wanted[i as int] {
                                self.rows@[j].lemma_value_injective(rows@[i as int]);
                            }
                        }
                        assert(!row_in(wanted[i as int], table));
                    }
                    return false;
                },
            }
            i = i + 1;
        }
        true
    }

    /// Whether every row of family `T` is loaded, compared by value.
    pub fn contains_table<T: CustomTable>(&self) -> (r: bool)
        requires
            self.wf(),
        ensures
            r == rows_subset(T::rows(), self.value()),
    {
        let rows = T::collect_rows();
        self.contains_rows(&rows)
    }

    /// Checks that `x` is one of the elements of set family `T`.
    pub fn contains<T: CustomSet>(&self, x: &Fe) -> (r: Result<(), LookupError>)
        ensures
            r is Ok <==> on_axis(T::elements(), x.val()),
            r is Err ==> r == Err::<(), LookupError>(LookupError::NoMatch),
    {
        let elements = T::collect_elements();
        match find_value(&elements, x) {
            Some(_) => Ok(()),
            None => Err(LookupError::NoMatch),
        }
    }

    /// The output of one-input family `T` at `x`.
    pub fn lookup_1d<T: Custom1DMap>(&self, x: &Fe) -> (r: Result<Fe, LookupError>)
        ensures
            r is Ok <==> on_axis(T::x_axis(), x.val()),
            r matches Ok(y) ==> y.wf() && y.val() == T::map(x.val() as u64) as int,
            r is Err ==> r == Err::<Fe, LookupError>(LookupError::NoMatch),
    {
        let x_axis = T::collect_x_axis();
        match find_value(&x_axis, x) {
            Some(i) => Ok(Fe::from_u64(T::lookup(x_axis[i]))),
            None => Err(LookupError::NoMatch),
        }
    }

    /// The output of two-input family `T` at `(x, y)`.
    pub fn lookup_2d<T: Custom2DMap>(&self, x: &Fe, y: &Fe) -> (r: Result<Fe, LookupError>)
        ensures
            r is Ok <==> on_axis(T::x_axis(), x.val()) && on_axis(T::y_axis(), y.val()),
            r matches Ok(z) ==> z.wf() && z.val() == T::map(x.val() as u64, y.val() as u64) as int,
            r is Err ==> r == Err::<Fe, LookupError>(LookupError::NoMatch),
    {
        let x_axis = T::collect_x_axis();
        let y_axis = T::collect_y_axis();
        match (find_value(&x_axis, x), find_value(&y_axis, y)) {
            (Some(i), Some(j)) => Ok(Fe::from_u64(T::lookup(x_axis[i], y_axis[j]))),
            _ => Err(LookupError::NoMatch),
        }
    }
}

} // verus!
