use meteomatics::locations::{Coordinates, Locations};
use meteomatics::connector_components::format::Format;
use meteomatics::optionals::{Opt, OptSet, Optionals};
use std::iter::FromIterator;

#[test]
fn with_values() {
    println!("\n##### with_values:");

    let optionals: Optionals = Optionals {
        opt_values: OptSet::from_iter([
            Opt {
                k: "source",
                v: "mix",
            },
            Opt {
                k: "calibrated",
                v: "true",
            },
        ]),
    };

    println!(">>>>>>>>>> optionals: {}", optionals.to_string());

    assert_eq!(optionals.to_string(), "source=mix&calibrated=true");

    assert_ne!(
        optionals.opt_values,
        OptSet::from_iter([Opt {
            k: "source",
            v: "mix"
        }])
    );
}

#[test]
fn single_flag_and_no_flag() {
    let one = Optionals { opt_values: vec![Opt { k: "source", v: "mix" }] };
    assert_eq!(one.to_string(), "source=mix");
    assert_eq!(Opt { k: "", v: "" }.to_string(), "=");
    assert_eq!(Optionals { opt_values: OptSet::new() }.to_string(), "");
}

#[test]
fn coordinates_are_joined_by_commas() {
    let locations = Locations { coordinates: Coordinates::from(["47.419708", "9.358478"]) };
    assert_eq!(locations.to_string(), "47.419708,9.358478");
    assert_eq!(Locations { coordinates: Coordinates::new() }.to_string(), "");
}

#[test]
fn format_is_spelled_in_lower_case() {
    assert_eq!(Format::CSV.to_string(), "csv");
}
