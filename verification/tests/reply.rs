use vaspsetup::incar::IncarValue;
use vaspsetup::python::PythonError;
use vaspsetup::reply::{integer_numbers, preset_reply, reply_result, species_from_entries, species_reply};

#[test]
fn reply_ok_with_data() {
    assert!(reply_result("  {\"status\": \"ok\", \"data\": null}\n", "").is_ok());
}

#[test]
fn reply_silent_failures() {
    assert!(matches!(reply_result("  \n", "No module named vaspsetup_core"), Err(PythonError::ModuleNotFound)));
    match reply_result("", " boom \n") {
        Err(PythonError::ProcessFailed(m)) => assert_eq!(m, "No output. stderr: boom"),
        other => panic!("unexpected {:?}", other),
    }
}

#[test]
fn reply_not_json() {
    match reply_result("not json\n", "") {
        Err(PythonError::InvalidResponse(m)) => {
            assert!(m.starts_with("Invalid JSON: "));
            assert!(m.ends_with(". Raw: not json"));
        }
        other => panic!("unexpected {:?}", other),
    }
}

#[test]
fn reply_status_cases() {
    match reply_result("{\"status\": \"ok\"}", "") {
        Err(PythonError::InvalidResponse(m)) => assert_eq!(m, "Missing 'data' field"),
        other => panic!("unexpected {:?}", other),
    }
    match reply_result("{\"status\": \"error\", \"message\": \"bad file\"}", "") {
        Err(PythonError::BackendError(m)) => assert_eq!(m, "bad file"),
        other => panic!("unexpected {:?}", other),
    }
    match reply_result("{\"status\": \"error\"}", "") {
        Err(PythonError::BackendError(m)) => assert_eq!(m, "Unknown backend error"),
        other => panic!("unexpected {:?}", other),
    }
    match reply_result("{\"status\": 3, \"data\": 1}", "") {
        Err(PythonError::InvalidResponse(m)) => assert_eq!(m, "Invalid 'status' field: {\"status\": 3, \"data\": 1}"),
        other => panic!("unexpected {:?}", other),
    }
}

#[test]
fn preset_values_read() {
    let out = "{\"status\": \"ok\", \"data\": {\"ENCUT\": 520, \"EDIFF\": 1e-5, \"LREAL\": \"Auto\", \"LWAVE\": false, \"MAGMOM\": [1, 2]}}";
    let mut entries = preset_reply(out, "").unwrap().unwrap();
    entries.sort_by(|a, b| a.0.cmp(&b.0));
    assert_eq!(entries.len(), 5);
    assert_eq!(entries[0], ("EDIFF".to_string(), IncarValue::Real("0.00001".to_string())));
    assert_eq!(entries[1], ("ENCUT".to_string(), IncarValue::Int(520)));
    assert_eq!(entries[2], ("LREAL".to_string(), IncarValue::Text("Auto".to_string())));
    assert_eq!(entries[3], ("LWAVE".to_string(), IncarValue::Bool(false)));
    assert_eq!(entries[4], ("MAGMOM".to_string(), IncarValue::Other("[1,2]".to_string())));
    assert_eq!(preset_reply("{\"status\": \"ok\", \"data\": [1]}", "").unwrap(), None);
    assert!(preset_reply("{\"status\": \"error\", \"message\": \"no preset\"}", "").is_err());
}

#[test]
fn integer_numbers_only_change_integers() {
    let raw = vec![
        ("A".to_string(), IncarValue::Real("-7".to_string())),
        ("B".to_string(), IncarValue::Real("2.5".to_string())),
        ("C".to_string(), IncarValue::Real("18446744073709551615".to_string())),
        ("D".to_string(), IncarValue::Text("5".to_string())),
    ];
    let out = integer_numbers(raw);
    assert_eq!(out[0].1, IncarValue::Int(-7));
    assert_eq!(out[1].1, IncarValue::Real("2.5".to_string()));
    assert_eq!(out[2].1, IncarValue::Real("18446744073709551615".to_string()));
    assert_eq!(out[3].1, IncarValue::Text("5".to_string()));
}

#[test]
fn species_entries_without_symbol_or_count_dropped() {
    let out = "{\"status\":\"ok\",\"data\":{\"species\":[{\"symbol\":\"Fe\",\"count\":2},{\"symbol\":\"O\"},{\"count\":3},{\"symbol\":\"O\",\"count\":3}]}}";
    let species = species_reply(out, "").unwrap().unwrap();
    assert_eq!(species.len(), 2);
    assert_eq!((species[0].symbol.as_str(), species[0].count), ("Fe", 2));
    assert_eq!((species[1].symbol.as_str(), species[1].count), ("O", 3));
    assert!(species_reply("{\"status\":\"ok\",\"data\":{}}", "").unwrap().is_none());
    let kept = species_from_entries(vec![(Some("H".to_string()), None), (Some("C".to_string()), Some(4))]);
    assert_eq!(kept.len(), 1);
    assert_eq!(kept[0].symbol, "C");
}
