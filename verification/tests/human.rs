use claim_graph::human::{
    pick_prefix, prefix_datapoints, prefix_symbol, round_with_power, round_with_scaled_unit,
    superscrip, Magnitude, NUMBER_OF_PREFIXES,
};

fn magnitude_of(number: f64) -> Magnitude {
    if number == 0. {
        Magnitude::Zero
    } else {
        Magnitude::Log10Floor(number.abs().log10().floor() as i32)
    }
}

#[test]
fn test_pick_prefix() {
    const TESTS: &[(f64, Option<i8>)] = &[
        (0., None),
        (1e0, None),
        (1.1e0, None),
        (1e2, None),
        (9.9e2, None),
        (1e3, Some(3)),
        (11e2, Some(3)),
        (1e4, Some(3)),
        (1e7, Some(6)),
        (1e100, Some(30)),
        //
        (1e-1, Some(-3)),
        (1e-2, Some(-3)),
        (9.9e-2, Some(-3)),
        (1e-3, Some(-3)),
        (11e-2, Some(-3)),
        (0.099e-2, Some(-6)),
        (1e-4, Some(-6)),
        (1e-7, Some(-9)),
        (1e-100, Some(-30)),
    ];
    for &(number, exp) in TESTS {
        println!("{number} / {exp:?}");
        assert_eq!(pick_prefix(magnitude_of(number)), exp);
        println!("-{number} / {exp:?}");
        assert_eq!(pick_prefix(magnitude_of(-number)), exp);
    }
}

#[test]
fn pick_prefix_exact_boundaries() {
    assert_eq!(pick_prefix(Magnitude::Zero), None);
    assert_eq!(pick_prefix(Magnitude::Log10Floor(0)), None);
    assert_eq!(pick_prefix(Magnitude::Log10Floor(2)), None);
    assert_eq!(pick_prefix(Magnitude::Log10Floor(3)), Some(3));
    assert_eq!(pick_prefix(Magnitude::Log10Floor(5)), Some(3));
    assert_eq!(pick_prefix(Magnitude::Log10Floor(31)), Some(30));
    assert_eq!(pick_prefix(Magnitude::Log10Floor(1000)), Some(30));
    assert_eq!(pick_prefix(Magnitude::Log10Floor(-1)), Some(-3));
    assert_eq!(pick_prefix(Magnitude::Log10Floor(-3)), Some(-3));
    assert_eq!(pick_prefix(Magnitude::Log10Floor(-4)), Some(-6));
    assert_eq!(pick_prefix(Magnitude::Log10Floor(-30)), Some(-30));
    assert_eq!(pick_prefix(Magnitude::Log10Floor(-31)), Some(-30));
    assert_eq!(pick_prefix(Magnitude::Log10Floor(-1000)), Some(-30));
}

#[test]
fn superscrip_rewrites_digits_and_signs() {
    assert_eq!(superscrip("-30"), "⁻³⁰");
    assert_eq!(superscrip("+12"), "⁺¹²");
    assert_eq!(superscrip("0123456789"), "⁰¹²³⁴⁵⁶⁷⁸⁹");
    assert_eq!(superscrip(""), "");
}

#[test]
fn power_labels() {
    assert_eq!(round_with_power("1.23", 0, "m"), "1.23m");
    assert_eq!(round_with_power("1", 3, "m"), "10³m");
    assert_eq!(round_with_power("2.5", -6, "s"), "2.5·10⁻⁶s");
    assert_eq!(round_with_power("9.87", 30, "g"), "9.87·10³⁰g");
    assert_eq!(round_with_power("1", -30, ""), "10⁻³⁰");
}

#[test]
fn scaled_unit_labels() {
    assert_eq!(round_with_scaled_unit("2.5", "k", "m"), "2.5km");
    assert_eq!(round_with_scaled_unit("7", "", "s"), "7s");
    assert_eq!(round_with_scaled_unit("1.2", prefix_symbol(-6), "s"), "1.2μs");
    assert_eq!(prefix_symbol(3), "k");
    assert_eq!(prefix_symbol(30), "Q");
    assert_eq!(prefix_symbol(-30), "q");
}

#[test]
fn prefix_datapoints_table() {
    let points = prefix_datapoints();
    assert_eq!(points.len(), NUMBER_OF_PREFIXES);
    assert_eq!(points[0].name, "quetta (Q)");
    assert_eq!(points[0].exp, 30);
    assert_eq!(points[9].name, "kilo (k)");
    assert_eq!(points[9].exp, 3);
    assert_eq!(points[11].name, "deca (da)");
    assert_eq!(points[11].exp, 1);
    assert_eq!(points[15].name, "micro (μ)");
    assert_eq!(points[15].exp, -6);
    assert_eq!(points[23].name, "quecto (q)");
    assert_eq!(points[23].exp, -30);
    // Exponents strictly decrease down the table.
    for pair in points.windows(2) {
        assert!(pair[0].exp > pair[1].exp);
    }
}
