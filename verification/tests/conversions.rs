use diesel_enum_derive::{Data, TypeDescription, UnitEnum, Variant};

fn unit_enum(ident: &str, variants: &[&str]) -> UnitEnum {
    let variants = variants.iter().map(|name| Variant::unit(name)).collect();
    UnitEnum::from_description(&TypeDescription::new(ident, Data::Enum(variants))).unwrap()
}

#[test]
fn variants_a_and_b() {
    let s = unit_enum("S", &["A", "B"]);
    assert_eq!(s.to_string(0), "A");
    assert_eq!(s.try_from("B".to_string()), Ok(1));
    assert_eq!(s.try_from("C".to_string()), Err("Not a valid S".to_string()));
}

#[test]
fn unit_enum_keeps_names_in_declaration_order() {
    let s = unit_enum("Color", &["Red", "Green", "Blue"]);
    assert_eq!(s.ident, "Color");
    assert_eq!(s.variants, vec!["Red".to_string(), "Green".to_string(), "Blue".to_string()]);
    assert_eq!(s.len(), 3);
}

#[test]
fn forward_conversion_gives_the_declared_name() {
    let s = unit_enum("Color", &["Red", "Green", "Blue"]);
    assert_eq!(s.to_str(0), "Red");
    assert_eq!(s.to_str(1), "Green");
    assert_eq!(s.to_str(2), "Blue");
    assert_eq!(s.to_string(1), "Green".to_string());
    for tag in 0..s.len() {
        assert!(!s.to_str(tag).is_empty());
        assert_eq!(s.to_string(tag), s.to_str(tag));
    }
}

#[test]
fn round_trip_of_every_variant() {
    let s = unit_enum("Color", &["Red", "Green", "Blue"]);
    for tag in 0..s.len() {
        assert_eq!(s.try_from(s.to_string(tag)), Ok(tag));
    }
}

#[test]
fn reverse_conversion_is_exact() {
    let s = unit_enum("Color", &["Red", "Green", "Blue"]);
    let refusal = Err("Not a valid Color".to_string());
    assert_eq!(s.try_from("red".to_string()), refusal);
    assert_eq!(s.try_from("RED".to_string()), refusal);
    assert_eq!(s.try_from(" Red".to_string()), refusal);
    assert_eq!(s.try_from("Red ".to_string()), refusal);
    assert_eq!(s.try_from("Red\n".to_string()), refusal);
    assert_eq!(s.try_from("Re".to_string()), refusal);
    assert_eq!(s.try_from("Redd".to_string()), refusal);
    assert_eq!(s.try_from("RedGreen".to_string()), refusal);
    assert_eq!(s.try_from("".to_string()), refusal);
    assert_eq!(s.try_from("Color::Red".to_string()), refusal);
    assert_eq!(s.try_from("Red".to_string()), Ok(0));
}

#[test]
fn refusal_names_the_type() {
    assert_eq!(unit_enum("State", &["On"]).not_valid_message(), "Not a valid State");
    assert_eq!(
        unit_enum("State", &["On"]).try_from("Off".to_string()),
        Err("Not a valid State".to_string())
    );
    assert_eq!(
        unit_enum("Other", &["On"]).try_from("Off".to_string()),
        Err("Not a valid Other".to_string())
    );
}

#[test]
fn enum_without_variants_refuses_every_string() {
    let never = unit_enum("Never", &[]);
    assert_eq!(never.len(), 0);
    assert_eq!(never.try_from("".to_string()), Err("Not a valid Never".to_string()));
    assert_eq!(never.try_from("Never".to_string()), Err("Not a valid Never".to_string()));
}

#[test]
fn reordering_keeps_every_mapping() {
    let ab = unit_enum("S", &["A", "B", "C"]);
    let ba = unit_enum("S", &["C", "A", "B"]);
    for tag in 0..ab.len() {
        let name = ab.to_string(tag);
        let moved = ba.try_from(name.clone()).unwrap();
        assert_eq!(ba.to_str(moved), name);
        assert_eq!(ab.try_from(name), Ok(tag));
    }
    assert_eq!(ab.try_from("D".to_string()), ba.try_from("D".to_string()));
    assert_eq!(ab.try_from("B".to_string()), Ok(1));
    assert_eq!(ba.try_from("B".to_string()), Ok(2));
}

#[test]
fn first_of_two_equal_names_wins() {
    let s = unit_enum("S", &["A", "B", "A"]);
    assert_eq!(s.try_from("A".to_string()), Ok(0));
    assert_eq!(s.to_str(2), "A");
}

fn table(ident: &str, variants: &[&str]) -> UnitEnum {
    UnitEnum {
        ident: ident.to_string(),
        variants: variants.iter().map(|name| name.to_string()).collect(),
    }
}

#[test]
fn well_formed_means_every_name_is_one() {
    assert!(unit_enum("S", &["A", "B"]).is_well_formed());
    assert!(unit_enum("S", &[]).is_well_formed());
    assert!(table("S", &["A", "B"]).is_well_formed());
    assert!(!table("", &["A"]).is_well_formed());
    assert!(!table("S", &["A", ""]).is_well_formed());
    assert!(!table("S", &["", "B"]).is_well_formed());
    assert!(!table("S", &["A\"", "B"]).is_well_formed());
    assert!(!table("S\\", &["A"]).is_well_formed());
}

#[test]
fn distinct_names_are_told_from_repeated_ones() {
    assert!(unit_enum("S", &[]).has_distinct_names());
    assert!(unit_enum("S", &["A"]).has_distinct_names());
    assert!(unit_enum("S", &["A", "B", "C"]).has_distinct_names());
    assert!(unit_enum("S", &["A", "a"]).has_distinct_names());
    assert!(!unit_enum("S", &["A", "A"]).has_distinct_names());
    assert!(!unit_enum("S", &["A", "B", "A"]).has_distinct_names());
    assert!(!unit_enum("S", &["B", "A", "A"]).has_distinct_names());
}

#[test]
fn round_trip_fails_only_on_a_repeated_name() {
    let s = unit_enum("S", &["A", "B", "A"]);
    assert_eq!(s.try_from(s.to_string(0)), Ok(0));
    assert_eq!(s.try_from(s.to_string(1)), Ok(1));
    assert_eq!(s.try_from(s.to_string(2)), Ok(0));
}
