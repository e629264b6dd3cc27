use vaspsetup::incar::{format_incar_value, parse_incar_value, IncarParams, IncarValue};

#[test]
fn format_values() {
    assert_eq!(format_incar_value(&IncarValue::Bool(true)), ".TRUE.");
    assert_eq!(format_incar_value(&IncarValue::Bool(false)), ".FALSE.");
    assert_eq!(format_incar_value(&IncarValue::Int(-42)), "-42");
    assert_eq!(format_incar_value(&IncarValue::Real("1e-06".into())), "1e-06");
    assert_eq!(format_incar_value(&IncarValue::Text("Accurate".into())), "Accurate");
    assert_eq!(format_incar_value(&IncarValue::Other("[1,2]".into())), "[1,2]");
}

#[test]
fn parse_values() {
    assert_eq!(parse_incar_value(".true."), IncarValue::Bool(true));
    assert_eq!(parse_incar_value("T"), IncarValue::Bool(true));
    assert_eq!(parse_incar_value("false"), IncarValue::Bool(false));
    assert_eq!(parse_incar_value("f"), IncarValue::Bool(false));
    assert_eq!(parse_incar_value("520"), IncarValue::Int(520));
    assert_eq!(parse_incar_value("-3"), IncarValue::Int(-3));
    assert_eq!(parse_incar_value("+7"), IncarValue::Int(7));
    assert_eq!(parse_incar_value("1e-5"), IncarValue::Real("1e-5".into()));
    assert_eq!(parse_incar_value("0.6"), IncarValue::Real("0.6".into()));
    assert_eq!(parse_incar_value("inf"), IncarValue::Real("inf".into()));
    assert_eq!(parse_incar_value("Normal"), IncarValue::Text("Normal".into()));
    assert_eq!(parse_incar_value("9223372036854775808"), IncarValue::Real("9223372036854775808".into()));
    assert_eq!(parse_incar_value("1.2.3"), IncarValue::Text("1.2.3".into()));
}

#[test]
fn format_then_parse_keeps_bool_and_int() {
    for v in [IncarValue::Bool(true), IncarValue::Bool(false), IncarValue::Int(0), IncarValue::Int(i64::MIN)] {
        assert_eq!(parse_incar_value(&format_incar_value(&v)), v);
    }
}

#[test]
fn params_insert_replace_and_clear() {
    let mut p = IncarParams::new();
    assert!(p.is_empty());
    p.insert("NSW".into(), IncarValue::Int(0));
    p.insert("ENCUT".into(), IncarValue::Int(400));
    p.insert("NSW".into(), IncarValue::Int(100));
    assert_eq!(p.len(), 2);
    assert_eq!(p.name_at(0), "ENCUT");
    assert_eq!(*p.value_at(1), IncarValue::Int(100));
    assert!(p.contains_key("ENCUT"));
    assert!(!p.contains_key("encut"));
    let copy = p.duplicate();
    p.clear();
    assert!(p.is_empty());
    assert_eq!(copy.len(), 2);
}
