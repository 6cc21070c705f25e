use autonomous_navigation::bennu_ephem::{
    parse_labeled, BennuEphem, Component, HorizonsError, LabelError, END_OF_TABLE, START_OF_TABLE,
};
use autonomous_navigation::text::chars_of;

fn block(epoch: &str) -> String {
    format!("{epoch} = A.D. 2000\n X = 1.0E+08 Y =-2.0 Z= 3\n VX= 1 VY =2 VZ = 3.5\n LT= 1\n")
}

#[test]
fn reads_one_record() {
    let text = format!("header\n$$SOE\n{}$$EOE\n", block("2451545.000000000"));
    let e = BennuEphem::load(&text).unwrap();
    assert_eq!(e.records.len(), 1);
    let r = &e.records[0];
    assert_eq!(r.epoch, "2451545.000000000");
    assert_eq!(r.x, "1.0E+08");
    assert_eq!(r.y, "-2.0");
    assert_eq!(r.z, "3");
    assert_eq!(r.vx, "1");
    assert_eq!(r.vy, "2");
    assert_eq!(r.vz, "3.5");
}

#[test]
fn a_table_gives_back_its_records() {
    let text = format!(
        "noise\n 1 = not in the table\n  {START_OF_TABLE}  \n{}{}{}{END_OF_TABLE}\n{}",
        block("2451545.5"),
        block("2451546.5"),
        block("2451547.5"),
        block("2459999.5"),
    );
    let e = BennuEphem::load(&text).unwrap();
    let epochs: Vec<&str> = e.records.iter().map(|r| r.epoch.as_str()).collect();
    assert_eq!(epochs, vec!["2451545.5", "2451546.5", "2451547.5"]);
    let (first, last) = e.coverage();
    assert_eq!(first, "2451545.5");
    assert_eq!(last, "2451547.5");
}

#[test]
fn windows_line_ends_are_accepted() {
    let text = format!("$$SOE\n{}$$EOE\n", block("2451545.5")).replace('\n', "\r\n");
    let e = BennuEphem::load(&text).unwrap();
    assert_eq!(e.records.len(), 1);
    assert_eq!(e.records[0].vz, "3.5");
}

#[test]
fn refused_tables() {
    assert!(matches!(BennuEphem::load(""), Err(HorizonsError::NoRecords)));
    assert!(matches!(BennuEphem::load("$$SOE\n$$EOE\n"), Err(HorizonsError::NoRecords)));
    assert!(matches!(
        BennuEphem::load("$$SOE\n2451545.5 = A.D."),
        Err(HorizonsError::EndsAfterEpoch)
    ));
    assert!(matches!(
        BennuEphem::load("$$SOE\n2451545.5 = A.D.\n X = 1 Y = 2 Z = 3\n"),
        Err(HorizonsError::EndsAfterPosition)
    ));
    assert!(matches!(
        BennuEphem::load("$$SOE\n2451545.5 = A.D.\n X = 1 Z = 3\n VX= 1 VY= 2 VZ= 3\n LT\n$$EOE\n"),
        Err(HorizonsError::Component(Component::Y, LabelError::NoLabel))
    ));
    assert!(matches!(
        BennuEphem::load("$$SOE\n2451545.5 = A.D.\n X = 1 Y = 2 Z = 3\n VX= 1 VY= 2 VZ =\n LT\n$$EOE\n"),
        Err(HorizonsError::Component(Component::Vz, LabelError::NoValue))
    ));
}

#[test]
fn labels_are_found_in_both_spellings() {
    let line = chars_of(" VX=-1.5E+00 VY = 2.5");
    assert_eq!(parse_labeled(&line, "VX").unwrap(), "-1.5E+00");
    assert_eq!(parse_labeled(&line, "VY").unwrap(), "2.5");
    assert!(matches!(parse_labeled(&line, "VZ"), Err(LabelError::NoLabel)));
    assert!(matches!(parse_labeled(&chars_of("LT="), "LT"), Err(LabelError::NoValue)));
}
