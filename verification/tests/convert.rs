use unit_convert::dimension::{Dimensions, Direction, Step};
use unit_convert::units::{Decimal, Formula, UnitTable};

const ERROR: f64 = 0.01;

fn number(decimal: &Decimal) -> f64 {
    format!("{}e{}", decimal.mantissa, decimal.exponent).parse().unwrap()
}

fn to_base(formula: &Formula, x: f64) -> f64 {
    match formula {
        Formula::Identity => x,
        Formula::Linear { to_base, .. } => x * number(to_base),
        Formula::Turn => x * 2.0 * std::f64::consts::PI,
        Formula::Degree => x * std::f64::consts::PI / 180.0,
        Formula::Gradian => x * std::f64::consts::PI / 200.0,
        Formula::Celsius => x + 273.15,
        Formula::Fahrenheit => (x - 32.0) * 5.0 / 9.0 + 273.15,
        Formula::Rankine => x * 5.0 / 9.0,
    }
}

fn from_base(formula: &Formula, x: f64) -> f64 {
    match formula {
        Formula::Identity => x,
        Formula::Linear { from_base, .. } => x / number(from_base),
        Formula::Turn => x / (2.0 * std::f64::consts::PI),
        Formula::Degree => x * 180.0 / std::f64::consts::PI,
        Formula::Gradian => x * 200.0 / std::f64::consts::PI,
        Formula::Celsius => x - 273.15,
        Formula::Fahrenheit => (x - 273.15) * 9.0 / 5.0 + 32.0,
        Formula::Rankine => x * 9.0 / 5.0,
    }
}

fn run(steps: &[Step], mut value: f64) -> f64 {
    for step in steps {
        for _ in 0..step.times {
            value = match step.direction {
                Direction::ToBase => to_base(&step.conversion.formula, value),
                Direction::FromBase => from_base(&step.conversion.formula, value),
            };
        }
        value *= 10f64.powf(step.scale as f64);
    }
    value
}

fn convert(value: f64, from: &str, to: &str) -> f64 {
    let table = UnitTable::standard();
    let from_dim = Dimensions::parse(from, &table).unwrap();
    let to_dim = Dimensions::parse(to, &table).unwrap();
    assert!(from_dim.equals(&to_dim), "{from} and {to} should agree");
    run(&from_dim.convert(&to_dim), value)
}

fn close(got: f64, expected: f64) {
    assert!((got - expected).abs() <= ERROR, "got {got}, expected {expected}");
}

#[test]
fn convert_speed_and_acceleration() {
    close(convert(10.0, "m/s", "mi/h"), 22.37);
    close(convert(10.0, "m/s", "cm/s"), 1000.0);
    close(convert(10.0, "m/s^2", "mi/h^2"), 80529.71);
    close(convert(10.0, "m/s^3", "yard/s^3"), 10.94);
    close(convert(10.0, "yard/ms^2", "feet/s^2"), 30000.0);
}

#[test]
fn convert_derived_units() {
    close(convert(1E2, "footcandle", "hefnerkerze*rad/ft^2"), 110.74);
    close(convert(10.0, "footcandle", "lux"), 107.64);
}

#[test]
fn convert_shorthands() {
    close(convert(10.0, "km/h", "mph"), 6.21);
    close(convert(50.0, "Wh", "J"), 180000.0);
}

#[test]
fn convert_prefixed_units() {
    close(convert(50.0, "kWh", "J"), 180000000.0);
    close(convert(30.0, "kHz", "Hz"), 30000.0);
    close(convert(30.0, "MHz", "GHz"), 0.03);
}

#[test]
fn convert_temperatures() {
    close(convert(100.0, "degc", "k"), 373.15);
    close(convert(212.0, "degf", "degc"), 100.0);
}
