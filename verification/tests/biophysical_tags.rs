use biophysical_governance::biophysical_tags::BioDomain;

#[test]
fn each_domain_has_its_tag() {
    assert_eq!(BioDomain::Blood.hex_tag(), "0xB10oD001");
    assert_eq!(BioDomain::Sugar.hex_tag(), "0x5U6AR002");
    assert_eq!(BioDomain::Smart.hex_tag(), "0x5MART003");
    assert_eq!(BioDomain::Wave.hex_tag(), "0xWA4E004");
    assert_eq!(BioDomain::Brain.hex_tag(), "0x8RAIN005");
    assert_eq!(BioDomain::Oxygen.hex_tag(), "0x0XY6EN06");
}

#[test]
fn tags_are_distinct() {
    let domains = [
        BioDomain::Blood,
        BioDomain::Sugar,
        BioDomain::Smart,
        BioDomain::Wave,
        BioDomain::Brain,
        BioDomain::Oxygen,
    ];
    for (i, a) in domains.iter().enumerate() {
        for (j, b) in domains.iter().enumerate() {
            assert_eq!(i == j, a.hex_tag() == b.hex_tag());
        }
    }
}
