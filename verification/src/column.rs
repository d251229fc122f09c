//! Columns: a flat series of values, a list column whose rows are optional
//! series, and the one-column frame that an evaluator is run on.

use vstd::prelude::*;
use crate::dtype::DataType;
use crate::dtype::Field;

verus! {

/// What a series is, as a mathematical value.
pub struct SeriesView<T> {
    pub name: Seq<char>,
    pub dtype: DataType,
    pub values: Seq<T>,
}

/// A named run of values with a declared type. The library moves the values
/// about and never looks into them, so their representation is the caller's.
#[derive(Debug, PartialEq)]
pub struct Series<T> {
    pub name: String,
    pub dtype: DataType,
    pub values: Vec<T>,
}

impl<T> View for Series<T> {
    type V = SeriesView<T>;

    open spec fn view(&self) -> SeriesView<T> {
        SeriesView { name: self.name@, dtype: self.dtype, values: self.values@ }
    }
}

impl<T> Series<T> {
    /// A series of the given name, type and values.
    pub fn new(name: &str, dtype: DataType, values: Vec<T>) -> (s: Series<T>)
        ensures
            s@ == (SeriesView { name: name@, dtype, values: values@ }),
            s.values == values,
    {
        Series { name: name.to_owned(), dtype, values }
    }

    /// A series of the given name and type that holds no value.
    pub fn new_empty(name: &str, dtype: DataType) -> (s: Series<T>)
        ensures
            s@ == (SeriesView { name: name@, dtype, values: Seq::<T>::empty() }),
    {
        Series { name: name.to_owned(), dtype, values: Vec::new() }
    }

    /// The name of the series.
    pub fn name(&self) -> (r: &str)
        ensures
            r@ == self@.name,
    {
        self.name.as_str()
    }

    /// The declared type of the values.
    pub fn dtype(&self) -> (r: &DataType)
        ensures
            *r == self@.dtype,
    {
        &self.dtype
    }

    /// The number of values.
    pub fn len(&self) -> (n: usize)
        ensures
            n == self@.values.len(),
    {
        self.values.len()
    }

    /// Whether the series holds no value.
    pub fn is_empty(&self) -> (r: bool)
        ensures
            r == (self@.values.len() == 0),
    {
        self.values.len() == 0
    }

    /// Gives the series another name and leaves the rest as it is.
    pub fn rename(&mut self, name: &str)
        ensures
            final(self)@ == (SeriesView { name: name@, ..old(self)@ }),
            final(self).values == old(self).values,
    {
        self.name = name.to_owned();
    }
}

/// A frame of borrowed columns: what an evaluator is handed. The engine only
/// ever builds frames of one column, the row under evaluation.
pub struct Frame<'a, T> {
    pub columns: Vec<&'a Series<T>>,
}

impl<'a, T> Frame<'a, T> {
    /// The frame holds exactly the one column `row`.
    pub open spec fn holds_only(self, row: Series<T>) -> bool {
        self.columns@ == seq![&row]
    }

    /// A frame without columns.
    pub fn new_empty() -> (frame: Frame<'a, T>)
        ensures
            frame.columns@.len() == 0,
    {
        Frame { columns: Vec::new() }
    }

    /// A fresh frame of the single column `row`.
    pub fn of_row(row: &'a Series<T>) -> (frame: Frame<'a, T>)
        ensures
            frame.holds_only(*row),
    {
        let mut columns: Vec<&'a Series<T>> = Vec::new();
        columns.push(row);
        Frame { columns }
    }

    /// The number of columns.
    pub fn width(&self) -> (n: usize)
        ensures
            n == self.columns@.len(),
    {
        self.columns.len()
    }

    /// Column `i`.
    pub fn column(&self, i: usize) -> (s: &'a Series<T>)
        requires
            i < self.columns@.len(),
        ensures
            s == self.columns@[i as int],
    {
        self.columns[i]
    }
}

/// What a list column is, as a mathematical value.
pub struct ListColumnView<T> {
    pub name: Seq<char>,
    pub dtype: DataType,
    pub rows: Seq<Option<SeriesView<T>>>,
}

/// A row as a mathematical value.
pub open spec fn row_view<T>(row: Option<Series<T>>) -> Option<SeriesView<T>> {
    match row {
        Some(s) => Some(s@),
        None => None,
    }
}

/// The rows of a column as mathematical values.
pub open spec fn rows_view<T>(rows: Seq<Option<Series<T>>>) -> Seq<Option<SeriesView<T>>> {
    rows.map_values(|r: Option<Series<T>>| row_view(r))
}

/// Every row of `rows` that is present has the declared type `inner`.
pub open spec fn rows_have_type<T>(rows: Seq<Option<Series<T>>>, inner: DataType) -> bool {
    forall|i: int| 0 <= i < rows.len() ==> match #[trigger] rows[i] {
        Some(s) => s.dtype == inner,
        None => true,
    }
}

/// No row of `rows` is present.
pub open spec fn rows_all_null<T>(rows: Seq<Option<Series<T>>>) -> bool {
    forall|i: int| 0 <= i < rows.len() ==> (#[trigger] rows[i]) is None
}

/// A named column of rows, each row absent or a series. Its declared type is
/// `List(inner)`; a column that was made without a known element type is
/// declared `Null` and then holds no series.
#[derive(Debug, PartialEq)]
pub struct ListColumn<T> {
    pub name: String,
    pub dtype: DataType,
    pub rows: Vec<Option<Series<T>>>,
}

impl<T> View for ListColumn<T> {
    type V = ListColumnView<T>;

    open spec fn view(&self) -> ListColumnView<T> {
        ListColumnView {
            name: self.name@,
            dtype: self.dtype,
            rows: rows_view(self.rows@),
        }
    }
}

impl<T> ListColumn<T> {
    /// The rows agree with the declared type: under `List(inner)` every row
    /// that is present has type `inner`, under any other type none is present.
    pub open spec fn wf(&self) -> bool {
        match self.dtype.inner() {
            Some(inner) => rows_have_type(self.rows@, inner),
            None => rows_all_null(self.rows@),
        }
    }

    /// The list column `List(inner)` of the given rows, if each row that is
    /// present has type `inner`; otherwise the index of the first that has not.
    pub fn new(name: &str, inner: DataType, rows: Vec<Option<Series<T>>>) -> (r: Result<
        ListColumn<T>,
        usize,
    >)
        ensures
            match r {
                Ok(c) => {
                    &&& rows_have_type(rows@, inner)
                    &&& c.name@ == name@
                    &&& c.dtype == DataType::List(Box::new(inner))
                    &&& c.rows == rows
                    &&& c.wf()
                },
                Err(k) => {
                    &&& k < rows@.len()
                    &&& rows@[k as int] is Some
                    &&& rows@[k as int]->Some_0.dtype != inner
                    &&& rows_have_type(rows@.take(k as int), inner)
                },
            },
    {
        let n = rows.len();
        let mut i: usize = 0;
        while i < n
            invariant
                n == rows@.len(),
                i <= n,
                rows_have_type(rows@.take(i as int), inner),
            decreases n - i,
        {
            let ok = match &rows[i] {
                Some(s) => s.dtype.same(&inner),
                None => true,
            };
            if !ok {
                return Err(i);
            }
            assert forall|j: int| 0 <= j < i + 1 implies match #[trigger] rows@.take(i + 1)[j] {
                Some(s) => s.dtype == inner,
                None => true,
            } by {
                if j < i {
                    assert(rows@.take(i as int)[j] == rows@[j]);
                }
            }
            i = i + 1;
        }
        assert(rows@.take(n as int) =~= rows@);
        Ok(ListColumn { name: name.to_owned(), dtype: DataType::List(Box::new(inner)), rows })
    }

    /// A column of the given name and declared type that has no rows.
    pub fn new_empty(name: &str, dtype: DataType) -> (c: ListColumn<T>)
        ensures
            c@ == (ListColumnView::<T> { name: name@, dtype, rows: Seq::empty() }),
            c.rows@.len() == 0,
            c.wf(),
    {
        let c = ListColumn { name: name.to_owned(), dtype, rows: Vec::new() };
        assert(c@.rows =~= Seq::empty());
        c
    }

    /// The name of the column.
    pub fn name(&self) -> (r: &str)
        ensures
            r@ == self@.name,
    {
        self.name.as_str()
    }

    /// The declared type of the column.
    pub fn dtype(&self) -> (r: &DataType)
        ensures
            *r == self@.dtype,
    {
        &self.dtype
    }

    /// The element type, where the column is declared as a list.
    pub fn inner_dtype(&self) -> (r: Option<&DataType>)
        ensures
            r == match self.dtype.inner() {
                Some(t) => Some(&t),
                None => None,
            },
    {
        self.dtype.inner_dtype()
    }

    /// The column's name and declared type.
    pub fn field(&self) -> (f: Field)
        ensures
            f@.name == self@.name,
            f@.dtype == self@.dtype,
    {
        Field { name: self.name.clone(), dtype: self.dtype.clone() }
    }

    /// The number of rows, null rows included.
    pub fn len(&self) -> (n: usize)
        ensures
            n == self@.rows.len(),
    {
        self.rows.len()
    }

    /// Whether the column has no rows.
    pub fn is_empty(&self) -> (r: bool)
        ensures
            r == (self@.rows.len() == 0),
    {
        self.rows.len() == 0
    }

    /// Row `i`: `None` where the row is null.
    pub fn get(&self, i: usize) -> (r: Option<&Series<T>>)
        requires
            i < self@.rows.len(),
        ensures
            r == match self.rows@[i as int] {
                Some(s) => Some(&s),
                None => None,
            },
    {
        self.rows[i].as_ref()
    }

    /// Gives the column another name and leaves the rest as it is.
    pub fn rename(&mut self, name: &str)
        ensures
            final(self)@ == (ListColumnView { name: name@, ..old(self)@ }),
            final(self).rows == old(self).rows,
            final(self).dtype == old(self).dtype,
            final(self).wf() == old(self).wf(),
    {
        self.name = name.to_owned();
    }
}

} // verus!
