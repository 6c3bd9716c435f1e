use vstd::prelude::*;

verus! {

/// A predicate consulted when a conditional filter is evaluated.
pub trait ConditionFn {
    fn check(&self) -> bool;
}

/// A boolean condition over the application's state: constant, deferred to
/// a predicate, or combined from other filters.
pub enum Filter {
    Never,
    Always,
    Condition { func: Box<dyn ConditionFn> },
    And(Box<Filter>, Box<Filter>),
    Or(Box<Filter>, Box<Filter>),
    Invert(Box<Filter>),
}

impl Filter {
    /// Evaluates the filter; conditions are consulted anew on every call.
    pub fn eval(&self) -> (r: bool)
        ensures
            self is Never ==> r == false,
            self is Always ==> r == true,
        decreases *self,
    {
        match self {
            Filter::Never => false,
            Filter::Always => true,
            Filter::Condition { func } => func.check(),
            Filter::And(a, b) => a.eval() && b.eval(),
            Filter::Or(a, b) => a.eval() || b.eval(),
            Filter::Invert(a) => !a.eval(),
        }
    }

    /// The conjunction of two filters, simplified around constants.
    pub fn and(self, other: Filter) -> (r: Filter)
        ensures
            self is Always ==> r == other,
            self is Never ==> r is Never,
            other is Never && !(self is Always) ==> r is Never,
    {
        match self {
            Filter::Always => other,
            Filter::Never => Filter::Never,
            _ => {
                if let Filter::Always = other {
                    self
                } else if let Filter::Never = other {
                    other
                } else {
                    Filter::And(Box::new(self), Box::new(other))
                }
            },
        }
    }

    /// The disjunction of two filters, simplified around constants.
    pub fn or(self, other: Filter) -> (r: Filter)
        ensures
            self is Always ==> r is Always,
            self is Never ==> r == other,
            other is Always && !(self is Never) ==> r is Always,
    {
        match self {
            Filter::Always => Filter::Always,
            Filter::Never => other,
            _ => {
                if let Filter::Always = other {
                    other
                } else if let Filter::Never = other {
                    self
                } else {
                    Filter::Or(Box::new(self), Box::new(other))
                }
            },
        }
    }

    /// The negation of a filter, simplified around constants.
    pub fn invert(self) -> (r: Filter)
        ensures
            self is Always ==> r is Never,
            self is Never ==> r is Always,
    {
        match self {
            Filter::Always => Filter::Never,
            Filter::Never => Filter::Always,
            f => Filter::Invert(Box::new(f)),
        }
    }

    /// A filter deferring to a predicate.
    pub fn condition(f: Box<dyn ConditionFn>) -> (r: Filter)
        ensures
            r is Condition,
    {
        Filter::Condition { func: f }
    }
}

} // verus!
