use calculator_float::token::Token;
use calculator_float::CalculatorFloat;

fn parse(text: &str) -> Option<u64> {
    text.parse::<f64>().ok().map(f64::to_bits)
}

fn render(bits: u64) -> String {
    format!("{:e}", f64::from_bits(bits))
}

fn num(x: f64) -> CalculatorFloat {
    CalculatorFloat::Float(x.to_bits())
}

fn whole(x: i32) -> CalculatorFloat {
    CalculatorFloat::from_i32(x)
}

fn text(item: &str) -> CalculatorFloat {
    CalculatorFloat::from_text(item, parse)
}

fn float_add(x: u64, y: u64) -> u64 {
    (f64::from_bits(x) + f64::from_bits(y)).to_bits()
}

fn float_sub(x: u64, y: u64) -> u64 {
    (f64::from_bits(x) - f64::from_bits(y)).to_bits()
}

fn float_mul(x: u64, y: u64) -> u64 {
    (f64::from_bits(x) * f64::from_bits(y)).to_bits()
}

fn float_div(x: u64, y: u64) -> u64 {
    (f64::from_bits(x) / f64::from_bits(y)).to_bits()
}

fn float_atan2(x: u64, y: u64) -> u64 {
    f64::from_bits(x).atan2(f64::from_bits(y)).to_bits()
}

fn float_sqrt(x: u64) -> u64 {
    f64::from_bits(x).sqrt().to_bits()
}

fn float_exp(x: u64) -> u64 {
    f64::from_bits(x).exp().to_bits()
}

fn float_sin(x: u64) -> u64 {
    f64::from_bits(x).sin().to_bits()
}

fn float_cos(x: u64) -> u64 {
    f64::from_bits(x).cos().to_bits()
}

fn float_acos(x: u64) -> u64 {
    f64::from_bits(x).acos().to_bits()
}

#[test]
fn ser_de_string() {
    let x = text("test+(1/3)");
    assert_eq!(x.to_token(), Token::Str(String::from("test+(1/3)")));
    assert_eq!(
        CalculatorFloat::from_token(Token::Str(String::from("test+(1/3)")), parse),
        Some(x)
    );
}

#[test]
fn ser_de_float() {
    let x = num(3.0);
    assert_eq!(x.to_token(), Token::F64(3.0_f64.to_bits()));
    assert_eq!(
        CalculatorFloat::from_token(Token::F64(3.0_f64.to_bits()), parse),
        Some(x)
    );
}

#[test]
fn ser_de_int() {
    let x = whole(0);
    assert_eq!(x.to_token(), Token::F64(0.0_f64.to_bits()));
    assert_eq!(
        CalculatorFloat::from_token(Token::F64(0.0_f64.to_bits()), parse),
        Some(x)
    );
}

#[test]
fn from() {
    // Float init
    let x = whole(3);
    if let CalculatorFloat::Float(y) = x {
        assert!((f64::from_bits(y) - 3.0).abs() < f64::EPSILON)
    }
    assert!(x.is_float());
    // String init
    let x = text("3t");
    if let CalculatorFloat::Str(y) = x.clone() {
        assert_eq!(y, "3t")
    }
    assert!(!x.is_float());
    let mut test_string = String::from("3t");
    let x = CalculatorFloat::from_text(&test_string, parse);
    test_string.push_str(&String::from("2t"));
    if let CalculatorFloat::Str(y) = x.clone() {
        assert_eq!(y, "3t")
    }
    assert!(!x.is_float());
}

#[test]
#[should_panic]
fn fail_try_from() {
    let x2 = text("test");
    x2.to_float().unwrap();
}

#[test]
fn try_from() {
    let x2 = text("2");
    let x: f64 = 2.0;
    assert!((x - f64::from_bits(x2.to_float().unwrap())).abs() < f64::EPSILON);
    let x3 = num(2.0);
    assert!((x - f64::from_bits(x3.to_float().unwrap())).abs() < f64::EPSILON);
}

#[test]
fn add() {
    // Float init
    let mut x3 = whole(3);
    let x2 = num(2.0);
    if let CalculatorFloat::Float(y) = x3.clone().add(x2.clone(), float_add, render) {
        assert!((f64::from_bits(y) - 5.0).abs() < f64::EPSILON)
    }
    if let CalculatorFloat::Float(y) = x3.clone().add(whole(2), float_add, render) {
        assert!((f64::from_bits(y) - 5.0).abs() < f64::EPSILON)
    }
    if let CalculatorFloat::Float(y) = x3.clone().add(num(2.0), float_add, render) {
        assert!((f64::from_bits(y) - 5.0).abs() < f64::EPSILON)
    }

    x3.add_assign(x2.clone(), float_add, render);
    if let CalculatorFloat::Float(y) = x3.clone() {
        assert!((f64::from_bits(y) - 5.0).abs() < f64::EPSILON)
    }
    let mut x3s = text("3t");
    if let CalculatorFloat::Str(y) = x3s.clone().add(x2.clone(), float_add, render) {
        assert_eq!(y, "(3t + 2e0)")
    }
    if let CalculatorFloat::Str(y) = x3s.clone().add(text("2e0"), float_add, render) {
        assert_eq!(y, "(3t + 2e0)")
    }
    if let CalculatorFloat::Str(y) = x3s.clone().add(x2.clone(), float_add, render) {
        assert_eq!(y, "(3t + 2e0)")
    }

    x3s.add_assign(x2, float_add, render);
    if let CalculatorFloat::Str(y) = x3s {
        assert_eq!(y, "(3t + 2e0)")
    }
}

#[test]
fn div() {
    // Float init
    let mut x3 = whole(3);
    let x2 = num(3.0);
    assert_eq!(x3.clone().div(x2.clone(), float_div, render), num(1.0));
    assert_eq!(x3.clone().div(whole(3), float_div, render), num(1.0));
    assert_eq!(x3.clone().div(num(3.0), float_div, render), num(1.0));

    x3.div_assign(x2.clone(), float_div, render);
    assert_eq!(x3, num(1.0));
    let mut x3s = text("3t");
    assert_eq!(
        x3s.clone().div(x2.clone(), float_div, render),
        CalculatorFloat::Str(String::from("(3t / 3e0)"))
    );
    assert_eq!(
        x3s.clone().div(num(2.0), float_div, render),
        CalculatorFloat::Str(String::from("(3t / 2e0)"))
    );
    assert_eq!(
        x3s.clone().div(num(2.0), float_div, render),
        CalculatorFloat::Str(String::from("(3t / 2e0)"))
    );
    assert_eq!(
        x3s.clone().div(text("2.0"), float_div, render),
        CalculatorFloat::Str(String::from("(3t / 2e0)"))
    );
    x3s.div_assign(x2, float_div, render);
    assert_eq!(x3s, CalculatorFloat::Str(String::from("(3t / 3e0)")));
}

#[test]
fn sub() {
    // Float init
    let mut x3 = whole(3);
    let x2 = num(3.0);
    assert_eq!(x3.clone().sub(x2.clone(), float_sub, render), num(0.0));
    assert_eq!(x3.clone().sub(whole(3), float_sub, render), num(0.0));
    assert_eq!(x3.clone().sub(num(3.0), float_sub, render), num(0.0));

    x3.sub_assign(x2.clone(), float_sub, render);
    assert_eq!(x3, num(0.0));
    let mut x3s = text("3t");
    assert_eq!(
        x3s.clone().sub(x2.clone(), float_sub, render),
        CalculatorFloat::Str(String::from("(3t - 3e0)"))
    );
    assert_eq!(
        x3s.clone().sub(num(2.0), float_sub, render),
        CalculatorFloat::Str(String::from("(3t - 2e0)"))
    );
    assert_eq!(
        x3s.clone().sub(num(2.0), float_sub, render),
        CalculatorFloat::Str(String::from("(3t - 2e0)"))
    );
    assert_eq!(
        x3s.clone().sub(text("2.0"), float_sub, render),
        CalculatorFloat::Str(String::from("(3t - 2e0)"))
    );
    x3s.sub_assign(x2, float_sub, render);
    assert_eq!(x3s, CalculatorFloat::Str(String::from("(3t - 3e0)")));
}

#[test]
fn mult() {
    // Float init
    let mut x3 = whole(3);
    let x2 = num(3.0);
    assert_eq!(x3.clone().mul(x2.clone(), float_mul, render), num(9.0));
    assert_eq!(x3.clone().mul(whole(3), float_mul, render), num(9.0));
    assert_eq!(x3.clone().mul(num(3.0), float_mul, render), num(9.0));

    x3.mul_assign(x2.clone(), float_mul, render);
    assert_eq!(x3, num(9.0));
    let mut x3s = text("3t");
    assert_eq!(
        x3s.clone().mul(x2.clone(), float_mul, render),
        CalculatorFloat::Str(String::from("(3t * 3e0)"))
    );
    assert_eq!(
        x3s.clone().mul(num(2.0), float_mul, render),
        CalculatorFloat::Str(String::from("(3t * 2e0)"))
    );
    assert_eq!(
        x3s.clone().mul(num(2.0), float_mul, render),
        CalculatorFloat::Str(String::from("(3t * 2e0)"))
    );
    assert_eq!(
        x3s.clone().mul(text("2.0"), float_mul, render),
        CalculatorFloat::Str(String::from("(3t * 2e0)"))
    );
    x3s.mul_assign(x2, float_mul, render);
    assert_eq!(x3s, CalculatorFloat::Str(String::from("(3t * 3e0)")));
}

#[test]
fn neg() {
    // Float init
    let x3 = whole(3);
    let x2 = x3.clone().neg();
    assert_eq!(x2, num(-3.0));
    let x3s = text("3t");
    let x2 = x3s.clone().neg();
    assert_eq!(x2, CalculatorFloat::Str(String::from("(-3t)")));
}

#[test]
fn sqrt() {
    let x3 = whole(3);
    let x2: f64 = 3.0;
    assert_eq!(num(x2.sqrt()), x3.sqrt(float_sqrt));
    let x3s = text("3t");
    assert_eq!(
        x3s.sqrt(float_sqrt),
        CalculatorFloat::Str(String::from("sqrt(3t)"))
    );
}

#[test]
fn acos() {
    let x3 = whole(1);
    let x2: f64 = 1.0;
    assert_eq!(num(x2.acos()), x3.acos(float_acos));
    let x3s = text("1t");
    assert_eq!(
        x3s.acos(float_acos),
        CalculatorFloat::Str(String::from("acos(1t)"))
    );
}

#[test]
fn exp() {
    let x3 = whole(3);
    let x2: f64 = 3.0;
    assert_eq!(num(x2.exp()), x3.exp(float_exp));
    let x3s = text("3t");
    assert_eq!(
        x3s.exp(float_exp),
        CalculatorFloat::Str(String::from("exp(3t)"))
    );
}

#[test]
fn abs() {
    let x3 = whole(-3);
    let x2: f64 = -3.0;
    assert_eq!(num(x2.abs()), x3.abs());
    let x3s = text("-3t");
    assert_eq!(x3s.abs(), CalculatorFloat::Str(String::from("abs(-3t)")));
}

#[test]
fn cos() {
    let x3 = whole(-3);
    let x2: f64 = -3.0;
    assert_eq!(num(x2.cos()), x3.cos(float_cos));
    let x3s = text("-3t");
    assert_eq!(
        x3s.cos(float_cos),
        CalculatorFloat::Str(String::from("cos(-3t)"))
    );
}

#[test]
fn sin() {
    let x3 = whole(-3);
    let x2: f64 = -3.0;
    assert_eq!(num(x2.sin()), x3.sin(float_sin));
    let x3s = text("-3t");
    assert_eq!(
        x3s.sin(float_sin),
        CalculatorFloat::Str(String::from("sin(-3t)"))
    );
}

#[test]
fn atan2() {
    let x3 = whole(-3);
    let x2: f64 = -3.0;
    assert_eq!(
        num(x2.atan2(2.0)),
        x3.atan2(num(2.0), float_atan2, render)
    );
    let x3s = text("-3t");
    assert_eq!(
        x3s.atan2(text("test"), float_atan2, render),
        CalculatorFloat::Str(String::from("atan2(-3t, test)"))
    );
}

#[test]
fn add_ref() {
    // Float init
    let mut x3 = whole(3);
    let x2 = num(2.0);
    assert_eq!(x3.add_ref(x2.clone(), float_add, render), num(5.0));
    assert_eq!(x3.add_ref(whole(2), float_add, render), num(5.0));
    assert_eq!(x3.add_ref(num(2.0), float_add, render), num(5.0));

    x3.add_assign(x2.clone(), float_add, render);
    assert_eq!(x3, num(5.0));
    let mut x3s = text("3t");
    assert_eq!(
        x3s.clone().add(x2.clone(), float_add, render),
        CalculatorFloat::Str(String::from("(3t + 2e0)"))
    );
    assert_eq!(
        x3s.clone().add(num(2.0), float_add, render),
        CalculatorFloat::Str(String::from("(3t + 2e0)"))
    );
    assert_eq!(
        x3s.clone().add(num(2.0), float_add, render),
        CalculatorFloat::Str(String::from("(3t + 2e0)"))
    );
    assert_eq!(
        x3s.clone().add(text("2.0"), float_add, render),
        CalculatorFloat::Str(String::from("(3t + 2e0)"))
    );
    x3s.add_assign(x2, float_add, render);
    assert_eq!(x3s, CalculatorFloat::Str(String::from("(3t + 2e0)")));
}
