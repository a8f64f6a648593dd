use signalgen::columns::OutputFormat;
use signalgen::columns::SignalColumns;
use signalgen::request::RequestError;
use signalgen::request::validate_samples;

fn columns_from(
    t: Vec<String>,
    x1: Vec<String>,
    x2: Vec<String>,
    y1: Vec<String>,
    y2: Vec<String>,
    y3: Vec<String>,
) -> SignalColumns {
    SignalColumns { t, x1, x2, y1, y2, y3 }
}

fn texts(values: &[f64]) -> Vec<String> {
    values.iter().map(|v| format!("{}", v)).collect()
}

#[test]
fn zero_samples_rejected() {
    let r = validate_samples(0);
    assert_eq!(r, Err(RequestError::ZeroSamples));
    assert_eq!(r.unwrap_err().message(), "samples must be > 0");
}

#[test]
fn positive_samples_accepted() {
    assert_eq!(validate_samples(1), Ok(()));
    assert_eq!(validate_samples(1000), Ok(()));
}

#[test]
fn empty_columns_render_header_only() {
    let c = columns_from(vec![], vec![], vec![], vec![], vec![], vec![]);
    assert_eq!(c.to_csv(), Ok(String::from("t,x1,x2,y1,y2,y3\n")));
}

#[test]
fn single_sample_renders_one_row() {
    // One sample: the grid is just the start instant and the step is zero.
    let t_start: f64 = 2.5;
    let c = columns_from(
        texts(&[t_start]),
        texts(&[0.25]),
        texts(&[4.0]),
        texts(&[4.25]),
        texts(&[-3.75]),
        texts(&[1.0]),
    );
    assert_eq!(
        c.to_csv(),
        Ok(String::from("t,x1,x2,y1,y2,y3\n2.5,0.25,4,4.25,-3.75,1\n"))
    );
}

#[test]
fn rows_come_in_grid_order() {
    let c = columns_from(
        vec!["ta".into(), "tb".into(), "tc".into()],
        vec!["a1".into(), "b1".into(), "c1".into()],
        vec!["a2".into(), "b2".into(), "c2".into()],
        vec!["a3".into(), "b3".into(), "c3".into()],
        vec!["a4".into(), "b4".into(), "c4".into()],
        vec!["a5".into(), "b5".into(), "c5".into()],
    );
    let expected = "t,x1,x2,y1,y2,y3\n\
                    ta,a1,a2,a3,a4,a5\n\
                    tb,b1,b2,b3,b4,b5\n\
                    tc,c1,c2,c3,c4,c5\n";
    assert_eq!(c.to_csv(), Ok(String::from(expected)));
}

#[test]
fn length_mismatch_fails_fast() {
    let c = columns_from(
        texts(&[0.0, 1.0]),
        texts(&[0.0]),
        texts(&[0.0, 1.0]),
        texts(&[0.0, 1.0]),
        texts(&[0.0, 1.0]),
        texts(&[0.0, 1.0]),
    );
    let r = c.to_csv();
    assert_eq!(r, Err(RequestError::LengthMismatch));
    assert_eq!(
        r.unwrap_err().message(),
        "signal columns differ in length"
    );
}

#[test]
fn two_sample_unit_scenario() {
    // a1=1, f1=1, phi1=0, a2=1, f2=1, phi2=0, t_start=0, t_end=1, samples=2:
    // grid = [0, 1], both signals are sin(2*pi*f*t), and all combinations
    // follow elementwise.
    let samples: usize = 2;
    let (t_start, t_end): (f64, f64) = (0.0, 1.0);
    let dt = (t_end - t_start) / (samples as f64 - 1.0);
    let t: Vec<f64> = (0..samples).map(|i| t_start + i as f64 * dt).collect();
    assert_eq!(t, vec![0.0, 1.0]);

    let pi = std::f64::consts::PI;
    let x1: Vec<f64> = t.iter().map(|&tv| 1.0 * (2.0 * pi * 1.0 * tv + 0.0).sin()).collect();
    let x2 = x1.clone();
    assert_eq!(x1[0], 0.0);
    assert!(x1[1].abs() < 1e-12);

    let y1: Vec<f64> = x1.iter().zip(&x2).map(|(a, b)| a + b).collect();
    let y2: Vec<f64> = x1.iter().zip(&x2).map(|(a, b)| a - b).collect();
    let y3: Vec<f64> = x1.iter().zip(&x2).map(|(a, b)| a * b).collect();

    let c = columns_from(texts(&t), texts(&x1), texts(&x2), texts(&y1), texts(&y2), texts(&y3));
    let expected = format!(
        "t,x1,x2,y1,y2,y3\n0,0,0,0,0,0\n1,{},{},{},{},{}\n",
        x1[1],
        x2[1],
        y1[1],
        y2[1],
        y3[1]
    );
    assert_eq!(c.to_csv(), Ok(expected));
}

#[test]
fn empty_columns_render_empty_json_arrays() {
    let c = columns_from(vec![], vec![], vec![], vec![], vec![], vec![]);
    let expected = "{\"t\":[],\"x1\":[],\"x2\":[],\"y1\":[],\"y2\":[],\"y3\":[]}";
    assert_eq!(c.to_json(), Ok(String::from(expected)));
}

#[test]
fn json_holds_six_parallel_arrays() {
    let c = columns_from(
        texts(&[0.0, 0.5]),
        texts(&[1.0, 2.0]),
        texts(&[3.0, 4.0]),
        texts(&[4.0, 6.0]),
        texts(&[-2.0, -2.0]),
        texts(&[3.0, 8.0]),
    );
    let expected = "{\"t\":[0,0.5],\"x1\":[1,2],\"x2\":[3,4],\"y1\":[4,6],\"y2\":[-2,-2],\"y3\":[3,8]}";
    assert_eq!(c.to_json(), Ok(String::from(expected)));
}

#[test]
fn json_length_mismatch_fails_fast() {
    let c = columns_from(
        texts(&[0.0, 1.0]),
        texts(&[0.0, 1.0]),
        texts(&[0.0, 1.0]),
        texts(&[0.0, 1.0]),
        texts(&[0.0, 1.0]),
        texts(&[0.0]),
    );
    assert_eq!(c.to_json(), Err(RequestError::LengthMismatch));
}

#[test]
fn render_follows_chosen_format() {
    let c = columns_from(
        texts(&[0.0]),
        texts(&[1.0]),
        texts(&[2.0]),
        texts(&[3.0]),
        texts(&[-1.0]),
        texts(&[2.0]),
    );
    assert_eq!(
        c.render(OutputFormat::Csv),
        Ok(String::from("t,x1,x2,y1,y2,y3\n0,1,2,3,-1,2\n"))
    );
    assert_eq!(
        c.render(OutputFormat::Json),
        Ok(String::from(
            "{\"t\":[0],\"x1\":[1],\"x2\":[2],\"y1\":[3],\"y2\":[-1],\"y3\":[2]}"
        ))
    );
}

#[test]
fn rendering_is_deterministic() {
    let make = || {
        columns_from(
            texts(&[0.0, 0.5, 1.0]),
            texts(&[0.1, 0.2, 0.3]),
            texts(&[1.0, 2.0, 3.0]),
            texts(&[1.1, 2.2, 3.3]),
            texts(&[-0.9, -1.8, -2.7]),
            texts(&[0.1, 0.4, 0.9]),
        )
    };
    let first = make().to_csv().unwrap();
    let second = make().to_csv().unwrap();
    assert_eq!(first, second);
    let first_json = make().to_json().unwrap();
    let second_json = make().to_json().unwrap();
    assert_eq!(first_json, second_json);
}
