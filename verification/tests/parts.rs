use simplot::error::check_exit;
use simplot::number::double_less;
use simplot::number::put_le;
use simplot::text::decimal_digits;
use simplot::text::put_bytes;
use simplot::text::put_decimal;
use simplot::text::put_str;
use simplot::text::put_string;
use simplot::text::str_bytes;
use simplot::Figure;
use simplot::FigureError;
use simplot::Line;
use simplot::LineType;
use simplot::Number;
use simplot::PlotOption;
use simplot::PlotType;
use simplot::PointType;
use simplot::Terminal;

fn samples() -> Vec<f64> {
    vec![
        0.0,
        -0.0,
        1.0,
        -1.0,
        2.0,
        -2.0,
        0.5,
        -0.5,
        1.5,
        100.0,
        1e300,
        -1e300,
        5e-324,
        -5e-324,
        f64::MIN_POSITIVE,
        f64::MAX,
        f64::MIN,
        f64::EPSILON,
        f64::INFINITY,
        f64::NEG_INFINITY,
        f64::NAN,
        -f64::NAN,
        f64::from_bits(0x7ff0_0000_0000_0001),
        f64::from_bits(0xffff_ffff_ffff_ffff),
    ]
}

#[test]
fn line_types_have_their_codes() {
    assert_eq!(LineType::Dash.code(), 2);
    assert_eq!(LineType::Dot.code(), 3);
    assert_eq!(LineType::DotDash.code(), 4);
    assert_eq!(LineType::DotDotDash.code(), 5);
    assert_eq!(LineType::SmallDot.code(), 0);
    assert_eq!(LineType::Solid.code(), 1);
}

#[test]
fn point_types_have_their_codes() {
    assert_eq!(PointType::Circle.code(), 7);
    assert_eq!(PointType::Square.code(), 5);
    assert_eq!(PointType::Triangle.code(), 9);
}

#[test]
fn plot_types_have_their_keywords() {
    assert_eq!(PlotType::Lines.keyword(), "lines");
    assert_eq!(PlotType::Points.keyword(), "points");
}

#[test]
fn terminals_have_their_keywords() {
    assert_eq!(Terminal::Png.keyword(), "pngcairo");
    assert_eq!(Terminal::Svg.keyword(), "svg dynamic");
}

#[test]
fn every_line_type_is_written_by_its_code() {
    let all = [
        (LineType::Dash, " lt 2 "),
        (LineType::Dot, " lt 3 "),
        (LineType::DotDash, " lt 4 "),
        (LineType::DotDotDash, " lt 5 "),
        (LineType::SmallDot, " lt 0 "),
        (LineType::Solid, " lt 1 "),
    ];
    for (pattern, clause) in all {
        let mut figure = Figure::new();
        figure.plot(PlotType::Lines, &[], &[], &[PlotOption::LineType(pattern)]);
        let args = String::from_utf8(figure.lines()[0].args().clone()).unwrap();
        assert!(args.contains(clause), "{} lacks {}", args, clause);
    }
}

#[test]
fn every_point_type_is_written_by_its_code() {
    let all = [
        (PointType::Circle, " pt 7 "),
        (PointType::Square, " pt 5 "),
        (PointType::Triangle, " pt 9 "),
    ];
    for (symbol, clause) in all {
        let mut figure = Figure::new();
        figure.plot(PlotType::Points, &[], &[], &[PlotOption::PointType(symbol)]);
        let args = String::from_utf8(figure.lines()[0].args().clone()).unwrap();
        assert!(args.contains(clause), "{} lacks {}", args, clause);
    }
}

#[test]
fn decimal_digits_of_small_and_large_numbers() {
    assert_eq!(decimal_digits(0), b"0".to_vec());
    assert_eq!(decimal_digits(7), b"7".to_vec());
    assert_eq!(decimal_digits(9), b"9".to_vec());
    assert_eq!(decimal_digits(10), b"10".to_vec());
    assert_eq!(decimal_digits(99), b"99".to_vec());
    assert_eq!(decimal_digits(100), b"100".to_vec());
    assert_eq!(decimal_digits(1366), b"1366".to_vec());
    assert_eq!(decimal_digits(1_000_000), b"1000000".to_vec());
    assert_eq!(decimal_digits(usize::MAX), format!("{}", usize::MAX).into_bytes());
}

#[test]
fn decimal_digits_agree_with_formatting() {
    let mut n: usize = 1;
    for _ in 0..60 {
        assert_eq!(decimal_digits(n), format!("{}", n).into_bytes());
        assert_eq!(decimal_digits(n - 1), format!("{}", n - 1).into_bytes());
        n = n.wrapping_mul(3).wrapping_add(1);
    }
}

#[test]
fn text_becomes_its_utf8_bytes() {
    assert_eq!(str_bytes(""), Vec::<u8>::new());
    assert_eq!(str_bytes("plot"), b"plot".to_vec());
    assert_eq!(str_bytes("\u{e9}\u{2192}"), vec![0xc3, 0xa9, 0xe2, 0x86, 0x92]);
}

#[test]
fn putting_appends() {
    let mut buffer = b"ab".to_vec();
    put_bytes(&mut buffer, b"cd");
    put_bytes(&mut buffer, b"");
    put_str(&mut buffer, "e\u{e9}");
    put_string(&mut buffer, &String::from("f"));
    put_decimal(&mut buffer, 120);
    assert_eq!(buffer, "abcde\u{e9}f120".as_bytes().to_vec());
}

#[test]
fn doubles_are_packed_least_significant_byte_first() {
    let mut buffer = vec![0xffu8];
    put_le(&mut buffer, 0x0102_0304_0506_0708);
    assert_eq!(buffer, vec![0xff, 8, 7, 6, 5, 4, 3, 2, 1]);
    for value in samples() {
        let mut packed = Vec::new();
        put_le(&mut packed, value.to_bits());
        assert_eq!(packed, value.to_le_bytes().to_vec());
    }
}

#[test]
fn patterns_compare_as_their_doubles_do() {
    for a in samples() {
        for b in samples() {
            assert_eq!(double_less(a.to_bits(), b.to_bits()), a < b, "{} < {}", a, b);
        }
    }
}

#[test]
fn zeros_are_equal_and_nothing_compares_with_what_is_no_number() {
    let zero = 0.0f64.to_bits();
    let minus_zero = (-0.0f64).to_bits();
    let nan = f64::NAN.to_bits();
    assert!(!double_less(zero, minus_zero));
    assert!(!double_less(minus_zero, zero));
    assert!(!double_less(nan, nan));
    assert!(!double_less(nan, zero));
    assert!(!double_less(zero, nan));
    assert!(double_less(f64::NEG_INFINITY.to_bits(), f64::MIN.to_bits()));
    assert!(double_less(f64::MAX.to_bits(), f64::INFINITY.to_bits()));
    assert!(double_less((-5e-324f64).to_bits(), zero));
    assert!(double_less(minus_zero, 5e-324f64.to_bits()));
}

#[test]
fn numbers_keep_pattern_and_text() {
    let number = Number::new(2.5f64.to_bits(), "2.5");
    assert_eq!(number.bits, 0x4004_0000_0000_0000);
    assert_eq!(number.text, "2.5");
    let other = Number::new(3.0f64.to_bits(), "3");
    assert!(number.less_than(&other));
    assert!(!other.less_than(&number));
    assert!(!number.less_than(&number));
}

#[test]
fn a_new_line_is_empty() {
    let line = Line::new();
    assert!(line.args().is_empty());
    assert!(line.data().is_empty());
    assert_eq!(line.records(), 0);
    assert_eq!(line.columns(), 0);
}

#[test]
fn a_new_figure_has_no_series() {
    let figure = Figure::new();
    assert!(figure.lines().is_empty());
    assert_eq!(figure, Figure::new());
}

#[test]
fn failures_in_words() {
    assert_eq!(FigureError::Configuration.message(), "No output file specified");
    assert_eq!(FigureError::EmptyPlot.message(), "Nothing to plot!");
    assert_eq!(
        FigureError::Io(String::from("Couldn't create a.gp: denied")).message(),
        "Couldn't create a.gp: denied"
    );
    assert_eq!(FigureError::Spawn(String::from("not found")).message(), "`gnuplot`: not found");
    assert_eq!(FigureError::Runtime(String::from("line 3: bad")).message(), "runtime error");
}

#[test]
fn failure_to_create_a_file_names_file_and_reason() {
    let error = FigureError::creation("plots/a.gp", "permission denied");
    assert_eq!(
        error,
        FigureError::Io(String::from("Couldn't create plots/a.gp: permission denied"))
    );
    assert_eq!(error.message(), "Couldn't create plots/a.gp: permission denied");
    assert_eq!(FigureError::creation("", ""), FigureError::Io(String::from("Couldn't create : ")));
}

#[test]
fn exit_status_decides_the_outcome() {
    assert_eq!(check_exit(true, String::from("warning")), Ok(()));
    assert_eq!(check_exit(true, String::new()), Ok(()));
    assert_eq!(
        check_exit(false, String::from("line 0: undefined variable")),
        Err(FigureError::Runtime(String::from("line 0: undefined variable")))
    );
    assert_eq!(check_exit(false, String::new()), Err(FigureError::Runtime(String::new())));
}

#[test]
fn patterns_compare_as_their_doubles_do_all_over() {
    let mut state: u64 = 0x9e37_79b9_7f4a_7c15;
    let mut next = move || {
        state = state.wrapping_mul(6364136223846793005).wrapping_add(1442695040888963407);
        let high = state >> 11;
        state = state.wrapping_mul(6364136223846793005).wrapping_add(1442695040888963407);
        (high << 32) ^ (state >> 16) ^ (state << 48)
    };
    let mut checked = 0;
    for round in 0..20000 {
        let a = next();
        let mut b = next();
        if round % 4 == 0 {
            b = a ^ (1 << (round % 64));
        }
        if round % 7 == 0 {
            b = a.wrapping_add(1);
        }
        let (x, y) = (f64::from_bits(a), f64::from_bits(b));
        assert_eq!(double_less(a, b), x < y, "{:#x} < {:#x}", a, b);
        assert_eq!(double_less(b, a), y < x, "{:#x} < {:#x}", b, a);
        assert!(!double_less(a, a));
        checked += 1;
    }
    assert_eq!(checked, 20000);
}
