use json::JsonValue;
use neurs::document::{digit_runs_fit_in, MAX_DIGIT_RUN};
use neurs::{Network, NetworkBuilder, Neuron, Numeral, Scalar, SigmoidFunction};

/// Single-precision arithmetic, as the hardware does it.
#[derive(Clone, Copy, Debug, PartialEq)]
struct R(f32);

impl Scalar for R {
    fn zero() -> Self {
        R(std::iter::empty::<f32>().sum())
    }

    fn one() -> Self {
        R(1.0)
    }

    fn plus(self, other: Self) -> Self {
        R(self.0 + other.0)
    }

    fn times(self, other: Self) -> Self {
        R(self.0 * other.0)
    }

    fn over(self, other: Self) -> Self {
        R(self.0 / other.0)
    }

    fn magnitude(self) -> Self {
        R(self.0.abs())
    }

    fn from_numeral(numeral: Numeral) -> Self {
        let number = if numeral.nan {
            json::number::NAN
        } else {
            json::number::Number::from_parts(numeral.positive, numeral.mantissa, numeral.exponent)
        };
        R(f64::from(number) as f32)
    }
}

type Plain = fn(R) -> R;

fn same(x: R) -> R {
    x
}

fn builder() -> NetworkBuilder<R, Plain> {
    Network::builder()
}

fn reals(values: &[f32]) -> Vec<R> {
    values.iter().map(|x| R(*x)).collect()
}

fn read(text: &str) -> Result<Network<R, Plain>, ()> {
    assert!(digit_runs_fit_in(text));
    builder()
        .with_sigmoid_fn(SigmoidFunction::Custom(same as Plain))
        .parse_json_source(text)
        .map(|b| b.build())
}

fn array(items: Vec<JsonValue>) -> JsonValue {
    JsonValue::Array(items)
}

fn neuron(weights: JsonValue, bias: JsonValue) -> JsonValue {
    let mut object = JsonValue::new_object();
    object.insert("weights", weights).unwrap();
    object.insert("bias", bias).unwrap();
    object
}

fn numbers(values: &[f64]) -> JsonValue {
    array(values.iter().map(|x| JsonValue::from(*x)).collect())
}

#[test]
fn golden_two_layer_topology() {
    let text = r#"[[{"weights": [1.0, -1.0], "bias": 0.5}], [{"weights": [2.0], "bias": 0.0}]]"#;
    assert!(digit_runs_fit_in(text));
    let network = builder().parse_json_source(text).unwrap().build();
    assert!(network.accepts(2));
    assert!(!network.accepts(1));
    let out = network.calc(&reals(&[3.0, 1.0]));
    let first = 2.5f32 / 3.5f32;
    let raw = first * 2.0f32;
    assert_eq!(out, reals(&[raw / (1.0 + raw.abs())]));
    assert_eq!(out, reals(&[0.5882353]));
}

#[test]
fn parsed_values_reach_the_neurons_in_order() {
    let text = r#"
        [
            [
                {"weights": [1, 10, 100], "bias": 0.5},
                {"bias": -1, "weights": [0.25, 0, -2e0], "note": "ignored"}
            ],
            [
                {"weights": [1, 0], "bias": 0},
                {"weights": [0, 1], "bias": 0},
                {"weights": [1.5E1, -1], "bias": 2.5e-1}
            ]
        ]"#;
    let network = read(text).unwrap();
    assert!(network.accepts(3));
    // first layer: 1 + 20 + 300 + 0.5 and 0.25 + 0 - 6 - 1
    assert_eq!(network.calc(&reals(&[1.0, 2.0, 3.0])), reals(&[321.5, -6.75, 4829.5]));
}

#[test]
fn numbers_are_narrowed_to_single_precision() {
    let text = r#"[[
        {"weights": [0.1], "bias": 0},
        {"weights": [16777217], "bias": 0},
        {"weights": [1e40], "bias": 0},
        {"weights": [-1e-50], "bias": 0},
        {"weights": [123456789012345678901234567890], "bias": 0}
    ]]"#;
    let out = read(text).unwrap().calc(&reals(&[1.0]));
    assert_eq!(out.len(), 5);
    assert_eq!(out[0], R(0.1f64 as f32));
    assert_eq!(out[1], R(16777216.0));
    assert_eq!(out[2], R(f32::INFINITY));
    assert_eq!(out[3], R(0.0));
    assert_eq!(out[4], R(1.2345679e29));
}

#[test]
fn empty_topologies_are_read() {
    let none = read("[]").unwrap();
    assert!(none.accepts(4));
    assert_eq!(none.calc(&reals(&[1.0, 2.0])), reals(&[1.0, 2.0]));

    let hollow = read(" [ [ ] ] ").unwrap();
    assert!(hollow.accepts(2));
    assert_eq!(hollow.calc(&reals(&[1.0, 2.0])), Vec::new());

    let bare = read(r#"[[{"weights": [], "bias": 7}]]"#).unwrap();
    assert!(bare.accepts(0));
    assert!(!bare.accepts(1));
    assert_eq!(bare.calc(&[]), reals(&[7.0]));
}

#[test]
fn text_that_is_no_json_is_refused() {
    assert!(read("").is_err());
    assert!(read("[[{\"weights\": [1], \"bias\": 0}]").is_err());
    assert!(read("[[{weights: [1], bias: 0}]]").is_err());
    assert!(read("[] []").is_err());
    assert!(read("[[{\"weights\": [1,], \"bias\": 0}]]").is_err());
    assert!(read("not json").is_err());
}

#[test]
fn root_that_is_no_array_is_refused() {
    assert!(read(r#"{"weights": [1], "bias": 0}"#).is_err());
    assert!(read("3").is_err());
    assert!(read("null").is_err());
    assert!(read(r#""[]""#).is_err());
    assert!(builder().parse_json(JsonValue::Null).is_err());
    assert!(builder().parse_json(JsonValue::new_object()).is_err());
    assert!(builder().parse_json(JsonValue::from(1.0)).is_err());
}

#[test]
fn layer_that_is_no_array_is_refused() {
    assert!(read(r#"[{"weights": [1], "bias": 0}]"#).is_err());
    assert!(read(r#"[[{"weights": [1], "bias": 0}], 5]"#).is_err());
    assert!(read(r#"[[], null]"#).is_err());
    assert!(read(r#"[[], "x", []]"#).is_err());
}

#[test]
fn neuron_without_weights_is_refused() {
    assert!(read(r#"[[{"bias": 0}]]"#).is_err());
    assert!(read(r#"[[{"weight": [1], "bias": 0}]]"#).is_err());
    assert!(read(r#"[[{"weights": 1, "bias": 0}]]"#).is_err());
    assert!(read(r#"[[{"weights": {"0": 1}, "bias": 0}]]"#).is_err());
    assert!(read(r#"[[{"weights": null, "bias": 0}]]"#).is_err());
    assert!(read(r#"[[{"weights": [1], "bias": 0}, {"bias": 0}]]"#).is_err());
}

#[test]
fn neuron_without_bias_is_refused() {
    assert!(read(r#"[[{"weights": [1]}]]"#).is_err());
    assert!(read(r#"[[{"weights": [1], "Bias": 0}]]"#).is_err());
    assert!(read(r#"[[{"weights": [1], "bias": 0}], [{"weights": [1]}]]"#).is_err());
}

#[test]
fn weight_that_is_no_number_is_refused() {
    assert!(read(r#"[[{"weights": ["1"], "bias": 0}]]"#).is_err());
    assert!(read(r#"[[{"weights": [1, null, 3], "bias": 0}]]"#).is_err());
    assert!(read(r#"[[{"weights": [1, 2, true], "bias": 0}]]"#).is_err());
    assert!(read(r#"[[{"weights": [[1]], "bias": 0}]]"#).is_err());
}

#[test]
fn bias_that_is_no_number_is_refused() {
    assert!(read(r#"[[{"weights": [1], "bias": "0"}]]"#).is_err());
    assert!(read(r#"[[{"weights": [1], "bias": null}]]"#).is_err());
    assert!(read(r#"[[{"weights": [1], "bias": [0]}]]"#).is_err());
    assert!(read(r#"[[{"weights": [1], "bias": false}]]"#).is_err());
}

#[test]
fn neuron_that_is_no_object_is_refused() {
    assert!(read(r#"[[1]]"#).is_err());
    assert!(read(r#"[[[1], 0]]"#).is_err());
    assert!(read(r#"[["weights"]]"#).is_err());
    assert!(read(r#"[[null]]"#).is_err());
}

#[test]
fn parsing_replaces_the_layers_added_before() {
    let manual = vec![
        Neuron::new(reals(&[1.0, 1.0, 1.0]), R(0.0)),
        Neuron::new(reals(&[1.0, 1.0, 1.0]), R(0.0)),
    ];
    let text = r#"[[{"weights": [2], "bias": 1}]]"#;
    let network = builder()
        .layer(manual)
        .with_sigmoid_fn(SigmoidFunction::Custom(same as Plain))
        .parse_json_source(text)
        .unwrap()
        .build();
    assert!(network.accepts(1));
    assert!(!network.accepts(3));
    assert_eq!(network.calc(&reals(&[5.0])), reals(&[11.0]));

    let again = builder()
        .layer(vec![(reals(&[1.0, 1.0]), R(0.0))])
        .parse_json(array(vec![array(vec![neuron(numbers(&[3.0]), JsonValue::from(0.0))])]))
        .unwrap()
        .parse_json(array(Vec::new()))
        .unwrap()
        .build();
    assert!(again.accepts(7));
    assert_eq!(again.calc(&reals(&[5.0])), reals(&[5.0]));
}

#[test]
fn layers_added_after_parsing_are_appended() {
    let network = builder()
        .parse_json_source(r#"[[{"weights": [2], "bias": 1}]]"#)
        .unwrap()
        .layer(vec![(reals(&[10.0]), R(0.0))])
        .with_sigmoid_fn(SigmoidFunction::Custom(same as Plain))
        .build();
    assert_eq!(network.calc(&reals(&[5.0])), reals(&[110.0]));
}

#[test]
fn parsing_keeps_the_activation_policy() {
    fn negate(x: R) -> R {
        R(-x.0)
    }
    let network = builder()
        .with_sigmoid_fn(SigmoidFunction::Custom(negate as Plain))
        .parse_json_source(r#"[[{"weights": [1], "bias": 0}]]"#)
        .unwrap()
        .build();
    assert_eq!(network.calc(&reals(&[4.0])), reals(&[-4.0]));
}

#[test]
fn values_built_by_hand_are_read() {
    let document = array(vec![
        array(vec![
            neuron(numbers(&[1.5, -2.0]), JsonValue::from(0.25)),
            neuron(numbers(&[0.0, 1.0]), JsonValue::from(-1)),
        ]),
        array(vec![neuron(numbers(&[2.0, 4.0]), JsonValue::from(0u8))]),
    ]);
    let network = builder()
        .with_sigmoid_fn(SigmoidFunction::Custom(same as Plain))
        .parse_json(document)
        .unwrap()
        .build();
    assert!(network.accepts(2));
    // 3 - 2 + 0.25 = 1.25 and 1 - 1 = 0, then 2.5 + 0
    assert_eq!(network.calc(&reals(&[2.0, 1.0])), reals(&[2.5]));
}

#[test]
fn malformed_values_built_by_hand_are_refused() {
    let good = neuron(numbers(&[1.0]), JsonValue::from(0.0));
    assert!(builder().parse_json(array(vec![array(vec![good.clone()])])).is_ok());
    assert!(builder().parse_json(array(vec![good.clone()])).is_err());
    assert!(builder().parse_json(array(vec![array(vec![good.clone()]), JsonValue::Null])).is_err());

    let mut no_bias = JsonValue::new_object();
    no_bias.insert("weights", numbers(&[1.0])).unwrap();
    assert!(builder().parse_json(array(vec![array(vec![no_bias])])).is_err());

    let mut no_weights = JsonValue::new_object();
    no_weights.insert("bias", JsonValue::from(1.0)).unwrap();
    assert!(builder().parse_json(array(vec![array(vec![no_weights])])).is_err());

    let mixed = neuron(array(vec![JsonValue::from(1.0), JsonValue::from("2")]), JsonValue::from(0.0));
    assert!(builder().parse_json(array(vec![array(vec![mixed])])).is_err());

    let worded = neuron(numbers(&[1.0]), JsonValue::from(true));
    assert!(builder().parse_json(array(vec![array(vec![good, worded])])).is_err());
}

#[test]
fn number_that_is_not_a_number_stays_so() {
    let document = array(vec![array(vec![neuron(
        array(vec![JsonValue::from(f64::NAN)]),
        JsonValue::from(0.0),
    )])]);
    let network = builder().parse_json(document).unwrap().build();
    let out = network.calc(&reals(&[1.0]));
    assert_eq!(out.len(), 1);
    assert!(out[0].0.is_nan());
}

#[test]
fn digit_runs_are_measured() {
    assert!(digit_runs_fit_in(""));
    assert!(digit_runs_fit_in(r#"[[{"weights": [1.25, 3e10], "bias": 12345678901234567890}]]"#));
    let longest = "7".repeat(MAX_DIGIT_RUN);
    assert!(digit_runs_fit_in(&longest));
    assert!(digit_runs_fit_in(&format!("[{},{}]", longest, longest)));
    assert!(digit_runs_fit_in(&format!("0.{}e{}", longest, longest)));
    let too_long = "7".repeat(MAX_DIGIT_RUN + 1);
    assert!(!digit_runs_fit_in(&too_long));
    assert!(!digit_runs_fit_in(&format!("[1, 2, 0.{}]", too_long)));
    assert!(!digit_runs_fit_in(&format!("{}x{}", longest, too_long)));
    assert_eq!(MAX_DIGIT_RUN, 32767);
}

#[test]
fn longest_fraction_is_read() {
    let zeros = "0".repeat(MAX_DIGIT_RUN - 1);
    let text = format!(r#"[[{{"weights": [0.{}1], "bias": 1}}]]"#, zeros);
    let network = read(&text).unwrap();
    assert_eq!(network.calc(&reals(&[1.0])), reals(&[1.0]));
}
