use nix_lens::ast::{
    AttrSet, BinaryOperation, BindingInherit, BindingKeyValue, Boolean, Error, Expression, Float,
    FunctionHeadDestructured, FunctionHeadDestructuredArgument, FunctionHeadSimple, Identifier,
    Integer, List, Null, PartRaw, Uri,
};
use nix_lens::operators::Operator;

#[test]
fn leaf_descriptions() {
    assert_eq!(Identifier::new("foo".to_string()).debug(), "foo");
    assert_eq!(Integer::new("42".to_string()).debug(), "Integer('42')");
    assert_eq!(Float::new("3.14".to_string()).debug(), "Float('3.14')");
    assert_eq!(Boolean::new(true).debug(), "Boolean('true')");
    assert_eq!(Null::new().debug(), "Null");
    assert_eq!(Uri::new("https://example".to_string()).debug(), "Uri('https://example')");
    assert_eq!(PartRaw::new("text".to_string()).debug(), "PartRaw('text')");
    assert_eq!(Error::new("oops".to_string()).debug(), "Error('oops')");
    assert_eq!(Operator::Negate.debug(), "Negate");
}

#[test]
fn composite_descriptions() {
    let sum = BinaryOperation::new(
        Expression::Integer(Integer::new("1".to_string())),
        Operator::Addition,
        Expression::Integer(Integer::new("2".to_string())),
    )
    .unwrap();
    assert_eq!(sum.debug(), "BinaryOperation(Integer('1'), Addition, Integer('2'))");

    let list = List::new(vec![
        Expression::Identifier(Identifier::new("a".to_string())),
        Expression::Identifier(Identifier::new("b".to_string())),
    ]);
    assert_eq!(list.debug(), "List(a, b)");

    let set = AttrSet::new(
        true,
        vec![Expression::BindingKeyValue(BindingKeyValue::new(
            Expression::Identifier(Identifier::new("a".to_string())),
            Expression::Integer(Integer::new("1".to_string())),
        ))],
    );
    assert_eq!(set.debug(), "AttrSet(recursive=true, KeyValue(a))");

    let inherit = BindingInherit::new(
        None,
        Expression::Identifier(Identifier::new("attr".to_string())),
    );
    assert_eq!(inherit.debug(), "BindingInherit(from=false)");

    let head = FunctionHeadSimple::new(Identifier::new("arg".to_string()));
    assert_eq!(head.debug(), "FunctionHeadSimple(identifier=arg)");

    let destructured = FunctionHeadDestructured::new(true, Identifier::new(String::new()), vec![]);
    assert_eq!(destructured.debug(), "FunctionHeadDestructured(ellipsis=true)");

    let argument = FunctionHeadDestructuredArgument::new("name".to_string(), None);
    assert_eq!(
        argument.debug(),
        "FunctionHeadDestructuredArgument(identifier='name', default=None)"
    );
    let defaulted = FunctionHeadDestructuredArgument::new(
        "name".to_string(),
        Some(Expression::Integer(Integer::new("2".to_string()))),
    );
    assert_eq!(
        defaulted.debug(),
        "FunctionHeadDestructuredArgument(identifier='name', default=Integer('2'))"
    );
}
