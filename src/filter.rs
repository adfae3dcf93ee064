use vstd::prelude::*;

verus! {

/// A condition for the `WHERE` clause of a statement.
///
/// Rendering a filter into a statement is the store's business; what the
/// engines need to know is whether a filter has anything to apply at all.
/// Outside verified code `applies` is an ordinary method, which must agree
/// with `should_apply_filter`.
pub trait SqlFilter {
    /// Whether the filter holds criteria to apply.
    spec fn applies(&self) -> bool;

    /// Reports whether the filter holds criteria to apply.
    fn should_apply_filter(&self) -> (r: bool)
        ensures
            r == self.applies(),
    ;
}

/// A filter that wraps another one and combines it with further filters.
pub struct Filter<T>(T);

impl<T> View for Filter<T> {
    type V = T;

    closed spec fn view(&self) -> T {
        self.0
    }
}

impl<T> Filter<T> {
    /// Wraps `filter`.
    pub fn new(filter: T) -> (r: Self)
        ensures
            r@ == filter,
    {
        Filter(filter)
    }
}

impl<T> Filter<T> {
    /// The wrapped filter.
    pub fn into_inner(self) -> (r: T)
        ensures
            r == self@,
    {
        self.0
    }
}

impl<T: SqlFilter> Filter<T> {
    /// The conjunction of this filter with `other`.
    #[allow(clippy::should_implement_trait)]
    pub fn and<U: SqlFilter>(self, other: U) -> (r: Filter<And<T, U>>)
        ensures
            r@ == (And { left: self@, right: other }),
            r.applies() == (self.applies() || other.applies()),
    {
        Filter(And { left: self.0, right: other })
    }

    /// The disjunction of this filter with `other`.
    pub fn or<U: SqlFilter>(self, other: U) -> (r: Filter<Or<T, U>>)
        ensures
            r@ == (Or { left: self@, right: other }),
            r.applies() == (self.applies() || other.applies()),
    {
        Filter(Or { left: self.0, right: other })
    }

    /// The negation of this filter.
    #[allow(clippy::should_implement_trait)]
    pub fn not(self) -> (r: Filter<Not<T>>)
        ensures
            r@ == (Not { inner: self@ }),
            r.applies() == self.applies(),
    {
        Filter(Not { inner: self.0 })
    }
}

impl<T: SqlFilter> SqlFilter for Filter<T> {
    open spec fn applies(&self) -> bool {
        self@.applies()
    }

    fn should_apply_filter(&self) -> (r: bool) {
        self.0.should_apply_filter()
    }
}

/// Which sides of a binary filter are rendered.
#[derive(Clone, Copy, Debug, PartialEq, Eq, Structural)]
pub enum Junction {
    /// Both sides, joined by the operator.
    Both,
    /// The left side alone.
    LeftOnly,
    /// The right side alone.
    RightOnly,
    /// Neither side: the filter renders nothing.
    Neither,
}

/// The sides rendered where `left` and `right` say whether each side has
/// something to apply: exactly those that have.
pub open spec fn junction_of(left: bool, right: bool) -> Junction {
    match (left, right) {
        (true, true) => Junction::Both,
        (true, false) => Junction::LeftOnly,
        (false, true) => Junction::RightOnly,
        (false, false) => Junction::Neither,
    }
}

fn junction<L: SqlFilter, R: SqlFilter>(left: &L, right: &R) -> (r: Junction)
    ensures
        r == junction_of(left.applies(), right.applies()),
{
    match (left.should_apply_filter(), right.should_apply_filter()) {
        (true, true) => Junction::Both,
        (true, false) => Junction::LeftOnly,
        (false, true) => Junction::RightOnly,
        (false, false) => Junction::Neither,
    }
}

/// Both sides must hold; a side with nothing to apply is left out.
pub struct And<L, R> {
    pub left: L,
    pub right: R,
}

impl<L: SqlFilter, R: SqlFilter> And<L, R> {
    /// The sides to render, joined by `AND` where both are.
    pub fn junction(&self) -> (r: Junction)
        ensures
            r == junction_of(self.left.applies(), self.right.applies()),
    {
        junction(&self.left, &self.right)
    }
}

impl<L: SqlFilter, R: SqlFilter> SqlFilter for And<L, R> {
    open spec fn applies(&self) -> bool {
        self.left.applies() || self.right.applies()
    }

    fn should_apply_filter(&self) -> (r: bool) {
        self.left.should_apply_filter() || self.right.should_apply_filter()
    }
}

/// Either side may hold; a side with nothing to apply is left out.
pub struct Or<L, R> {
    pub left: L,
    pub right: R,
}

impl<L: SqlFilter, R: SqlFilter> Or<L, R> {
    /// The sides to render, joined by `OR` where both are.
    pub fn junction(&self) -> (r: Junction)
        ensures
            r == junction_of(self.left.applies(), self.right.applies()),
    {
        junction(&self.left, &self.right)
    }
}

impl<L: SqlFilter, R: SqlFilter> SqlFilter for Or<L, R> {
    open spec fn applies(&self) -> bool {
        self.left.applies() || self.right.applies()
    }

    fn should_apply_filter(&self) -> (r: bool) {
        self.left.should_apply_filter() || self.right.should_apply_filter()
    }
}

/// The inner filter must not hold.
pub struct Not<T> {
    pub inner: T,
}

impl<T: SqlFilter> SqlFilter for Not<T> {
    open spec fn applies(&self) -> bool {
        self.inner.applies()
    }

    fn should_apply_filter(&self) -> (r: bool) {
        self.inner.should_apply_filter()
    }
}

/// A condition written out as SQL text; an empty text applies nothing.
pub struct Raw(pub &'static str);

impl SqlFilter for Raw {
    open spec fn applies(&self) -> bool {
        self.0@.len() != 0
    }

    fn should_apply_filter(&self) -> (r: bool) {
        !self.0.is_empty()
    }
}

/// A filter that applies nothing.
pub struct NoOpFilter;

impl NoOpFilter {
    pub fn new() -> (r: Self) {
        NoOpFilter
    }
}

impl SqlFilter for NoOpFilter {
    open spec fn applies(&self) -> bool {
        false
    }

    fn should_apply_filter(&self) -> (r: bool) {
        false
    }
}

} // verus!
