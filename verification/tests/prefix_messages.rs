use todo_tools::{map_error, UnitPrefix};

#[test]
fn test_map_error() {
    assert_eq!(
        map_error(UnitPrefix::Femto),
        String::from("Missing unit prefix multiplier for Femto"),
    );
    assert_eq!(
        map_error(UnitPrefix::Pico),
        String::from("Missing unit prefix multiplier for Pico"),
    );
    assert_eq!(
        map_error(UnitPrefix::Nano),
        String::from("Missing unit prefix multiplier for Nano"),
    );
    assert_eq!(
        map_error(UnitPrefix::Micro),
        String::from("Missing unit prefix multiplier for Micro"),
    );
    assert_eq!(
        map_error(UnitPrefix::Milli),
        String::from("Missing unit prefix multiplier for Milli"),
    );
    assert_eq!(
        map_error(UnitPrefix::Centi),
        String::from("Missing unit prefix multiplier for Centi"),
    );
    assert_eq!(
        map_error(UnitPrefix::Deci),
        String::from("Missing unit prefix multiplier for Deci"),
    );
    assert_eq!(
        map_error(UnitPrefix::NoPrefix),
        String::from("Missing unit prefix multiplier for None"),
    );
    assert_eq!(
        map_error(UnitPrefix::Deca),
        String::from("Missing unit prefix multiplier for Deca"),
    );
    assert_eq!(
        map_error(UnitPrefix::Hecto),
        String::from("Missing unit prefix multiplier for Hecto"),
    );
    assert_eq!(
        map_error(UnitPrefix::Kilo),
        String::from("Missing unit prefix multiplier for Kilo"),
    );
    assert_eq!(
        map_error(UnitPrefix::Giga),
        String::from("Missing unit prefix multiplier for Giga"),
    );
    assert_eq!(
        map_error(UnitPrefix::Tera),
        String::from("Missing unit prefix multiplier for Tera"),
    );
    assert_eq!(
        map_error(UnitPrefix::Peta),
        String::from("Missing unit prefix multiplier for Peta"),
    );
}

#[test]
fn mega_has_a_message_too() {
    assert_eq!(
        map_error(UnitPrefix::Mega),
        String::from("Missing unit prefix multiplier for Mega"),
    );
}
