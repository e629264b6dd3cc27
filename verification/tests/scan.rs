use vaspsetup::scan::{scan_structure_files, structure_file};

fn entries(v: &[(&str, bool)]) -> Vec<(String, bool)> {
    v.iter().map(|(n, d)| (n.to_string(), *d)).collect()
}

#[test]
fn structure_files_by_prefix_and_extension() {
    assert!(structure_file("POSCAR", false));
    assert!(structure_file("POSCAR_Fe2O3", false));
    assert!(structure_file("CONTCAR.relaxed", false));
    assert!(structure_file("slab.VASP", false));
    assert!(structure_file("x.cif", false));
    assert!(structure_file("mol.xyz", false));
    assert!(structure_file("a.b.Gen", false));
    assert!(!structure_file("xsd", false));
    assert!(!structure_file("cif", false));
    assert!(!structure_file("VASP", false));
    assert!(!structure_file("INCAR", false));
    assert!(!structure_file("KPOINTS", false));
    assert!(!structure_file(".POSCAR", false));
    assert!(!structure_file("POSCAR", true));
    assert!(!structure_file("notes.txt", false));
    assert!(!structure_file("file.cif.bak", false));
}

#[test]
fn scan_sorts_and_filters() {
    let found = scan_structure_files(&entries(&[
        ("b.cif", false),
        ("INCAR", false),
        ("POSCAR", false),
        ("00", true),
        ("a.vasp", false),
        (".hidden.cif", false),
        ("CONTCAR", false),
    ]));
    assert_eq!(found, vec!["CONTCAR", "POSCAR", "a.vasp", "b.cif"]);
    assert!(scan_structure_files(&entries(&[])).is_empty());
}
