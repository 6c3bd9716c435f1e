use prompt_toolkit::filters::{ConditionFn, Filter};

struct TrueCond;

impl ConditionFn for TrueCond {
    fn check(&self) -> bool {
        true
    }
}

struct FalseCond;

impl ConditionFn for FalseCond {
    fn check(&self) -> bool {
        false
    }
}

#[test]
fn test_basic_filters() {
    assert!(!Filter::Never.eval());
    assert!(Filter::Always.eval());
}

#[test]
fn test_condition_filter() {
    let f = Filter::Condition { func: Box::new(TrueCond) };
    assert!(f.eval());

    let f = Filter::Condition { func: Box::new(FalseCond) };
    assert!(!f.eval());
}

#[test]
fn test_and() {
    assert!(!Filter::Never.and(Filter::Never).eval());
    assert!(!Filter::Never.and(Filter::Always).eval());
    assert!(!Filter::Always.and(Filter::Never).eval());
    assert!(Filter::Always.and(Filter::Always).eval());

    let c = Filter::Condition { func: Box::new(TrueCond) };
    assert!(Filter::Always.and(c).eval());
    let c = Filter::Condition { func: Box::new(TrueCond) };
    assert!(!Filter::Never.and(c).eval());
}

#[test]
fn test_or() {
    let f = Filter::Never;
    let f2 = Filter::Never;
    assert!(!f.or(f2).eval());

    let t = Filter::Always;
    let f = Filter::Never;
    assert!(f.or(t).eval());

    let t = Filter::Always;
    let f = Filter::Never;
    assert!(t.or(f).eval());

    let t = Filter::Always;
    let t2 = Filter::Always;
    assert!(t.or(t2).eval());

    let t = Filter::Always;
    let c = Filter::Condition { func: Box::new(TrueCond) };
    assert!(t.or(c).eval());
    let c = Filter::Condition { func: Box::new(TrueCond) };
    let f = Filter::Always;
    assert!(c.or(f).eval());
}

#[test]
fn test_invert() {
    assert!(Filter::Never.invert().eval());
    assert!(!Filter::Always.invert().eval());

    let f = Filter::Condition { func: Box::new(TrueCond) };
    assert!(!f.invert().eval());
}

#[test]
fn test_condition() {
    let f = Filter::condition(Box::new(TrueCond));
    assert!(f.eval());

    let f = Filter::condition(Box::new(FalseCond));
    assert!(!f.eval());
}

#[test]
fn test_combined_filters() {
    let c = Filter::Condition { func: Box::new(TrueCond) };
    let d = Filter::Condition { func: Box::new(FalseCond) };
    assert!(!c.and(d).eval());
    let c = Filter::Condition { func: Box::new(TrueCond) };
    let d = Filter::Condition { func: Box::new(FalseCond) };
    assert!(c.or(d).eval());
}
