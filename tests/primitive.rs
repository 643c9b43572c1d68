use coral::ast::{Comparison, Operator};
use coral::primitive::{FloatUnit, Primitive};

struct Native;

impl FloatUnit<f64> for Native {
    fn literal(&self, text: &str) -> f64 {
        text.parse().unwrap_or(f64::NAN)
    }

    fn widen(&self, v: i64) -> f64 {
        v as f64
    }

    fn arith(&self, op: Operator, a: f64, b: f64) -> f64 {
        match op {
            Operator::Add => a + b,
            Operator::Sub => a - b,
            Operator::Mul => a * b,
            Operator::Div => a / b,
            Operator::Mod => a % b,
        }
    }

    fn compare(&self, op: Comparison, a: f64, b: f64) -> bool {
        match op {
            Comparison::Equal => a == b,
            Comparison::NotEqual => a != b,
            Comparison::Greater => a > b,
            Comparison::GreaterThan => a >= b,
            Comparison::Less => a < b,
            _ => a <= b,
        }
    }

    fn negative(&self, a: f64) -> f64 {
        -a
    }
}

#[test]
fn primitive_negate() {
        let truth: Primitive<f64> = Primitive::Boolean(true);
        assert_eq!(Primitive::Boolean(false), truth.negate().unwrap())
    }

#[test]
fn primitive_and() {
        let truth: Primitive<f64> = Primitive::Boolean(true);
        let falsy: Primitive<f64> = Primitive::Boolean(false);

        assert_eq!(Primitive::Boolean(false), truth.and(&falsy).unwrap())
    }

#[test]
fn primitive_or() {
        let truth: Primitive<f64> = Primitive::Boolean(true);
        let falsy: Primitive<f64> = Primitive::Boolean(false);

        assert_eq!(Primitive::Boolean(true), truth.or(&falsy).unwrap())
    }

#[test]
fn primitive_eq_boolean() {
        let truth: Primitive<f64> = Primitive::Boolean(true);
        let falsy: Primitive<f64> = Primitive::Boolean(false);

        assert_eq!(Primitive::Boolean(false), truth.eq(&falsy, &Native).unwrap())
    }

#[test]
fn primitive_eq_int() {
        let a: Primitive<f64> = Primitive::Integer(1);
        let b: Primitive<f64> = Primitive::Integer(1);

        assert_eq!(Primitive::Boolean(true), a.eq(&b, &Native).unwrap())
    }

#[test]
fn primitive_eq_float() {
        let a: Primitive<f64> = Primitive::Float(1.2);
        let b: Primitive<f64> = Primitive::Float(1.2);

        assert_eq!(Primitive::Boolean(true), a.eq(&b, &Native).unwrap())
    }

#[test]
fn primitive_eq_int_float() {
        let a: Primitive<f64> = Primitive::Integer(1);
        let b: Primitive<f64> = Primitive::Float(1.0);

        assert_eq!(Primitive::Boolean(true), a.eq(&b, &Native).unwrap())
    }

#[test]
fn primitive_eq_float_int() {
        let a: Primitive<f64> = Primitive::Float(1.0);
        let b: Primitive<f64> = Primitive::Integer(1);

        assert_eq!(Primitive::Boolean(true), a.eq(&b, &Native).unwrap())
    }

#[test]
fn primitive_noteq_boolean() {
        let truth: Primitive<f64> = Primitive::Boolean(true);
        let falsy: Primitive<f64> = Primitive::Boolean(false);

        assert_eq!(Primitive::Boolean(true), truth.not_eq(&falsy, &Native).unwrap())
    }

#[test]
fn primitive_noteq_int() {
        let a: Primitive<f64> = Primitive::Integer(1);
        let b: Primitive<f64> = Primitive::Integer(1);

        assert_eq!(Primitive::Boolean(false), a.not_eq(&b, &Native).unwrap())
    }

#[test]
fn primitive_noteq_float() {
        let a: Primitive<f64> = Primitive::Float(1.2);
        let b: Primitive<f64> = Primitive::Float(1.2);

        assert_eq!(Primitive::Boolean(false), a.not_eq(&b, &Native).unwrap())
    }

#[test]
fn primitive_noteq_int_float() {
        let a: Primitive<f64> = Primitive::Integer(1);
        let b: Primitive<f64> = Primitive::Float(1.0);

        assert_eq!(Primitive::Boolean(false), a.not_eq(&b, &Native).unwrap())
    }

#[test]
fn primitive_noteq_float_int() {
        let a: Primitive<f64> = Primitive::Float(1.0);
        let b: Primitive<f64> = Primitive::Integer(1);

        assert_eq!(Primitive::Boolean(false), a.not_eq(&b, &Native).unwrap())
    }

#[test]
fn primitive_less_int() {
        let a: Primitive<f64> = Primitive::Integer(1);
        let b: Primitive<f64> = Primitive::Integer(1);
        assert_eq!(Primitive::Boolean(false), a.less_than(&b, &Native).unwrap())
    }

#[test]
fn primitive_less_float() {
        let a: Primitive<f64> = Primitive::Float(1.2);
        let b: Primitive<f64> = Primitive::Float(1.2);
        assert_eq!(Primitive::Boolean(false), a.less_than(&b, &Native).unwrap())
    }

#[test]
fn primitive_less_int_float() {
        let a: Primitive<f64> = Primitive::Integer(1);
        let b: Primitive<f64> = Primitive::Float(1.0);
        assert_eq!(Primitive::Boolean(false), a.less_than(&b, &Native).unwrap())
    }

#[test]
fn primitive_less_float_int() {
        let a: Primitive<f64> = Primitive::Float(1.0);
        let b: Primitive<f64> = Primitive::Integer(1);
        assert_eq!(Primitive::Boolean(false), a.less_than(&b, &Native).unwrap())
    }

#[test]
fn primitive_less_eq_int() {
        let a: Primitive<f64> = Primitive::Integer(1);
        let b: Primitive<f64> = Primitive::Integer(1);
        assert_eq!(Primitive::Boolean(true), a.less_than_equal(&b, &Native).unwrap())
    }

#[test]
fn primitive_less_eq_float() {
        let a: Primitive<f64> = Primitive::Float(1.2);
        let b: Primitive<f64> = Primitive::Float(1.2);
        assert_eq!(Primitive::Boolean(true), a.less_than_equal(&b, &Native).unwrap())
    }

#[test]
fn primitive_less_eq_int_float() {
        let a: Primitive<f64> = Primitive::Integer(1);
        let b: Primitive<f64> = Primitive::Float(1.0);
        assert_eq!(Primitive::Boolean(true), a.less_than_equal(&b, &Native).unwrap())
    }

#[test]
fn primitive_less_eq_float_int() {
        let a: Primitive<f64> = Primitive::Float(1.0);
        let b: Primitive<f64> = Primitive::Integer(1);
        assert_eq!(Primitive::Boolean(true), a.less_than_equal(&b, &Native).unwrap())
    }

#[test]
fn primitive_greater_int() {
        let a: Primitive<f64> = Primitive::Integer(1);
        let b: Primitive<f64> = Primitive::Integer(1);
        assert_eq!(Primitive::Boolean(false), a.greater_than(&b, &Native).unwrap())
    }

#[test]
fn primitive_greater_float() {
        let a: Primitive<f64> = Primitive::Float(1.2);
        let b: Primitive<f64> = Primitive::Float(1.2);
        assert_eq!(Primitive::Boolean(false), a.greater_than(&b, &Native).unwrap())
    }

#[test]
fn primitive_greater_int_float() {
        let a: Primitive<f64> = Primitive::Integer(1);
        let b: Primitive<f64> = Primitive::Float(1.0);
        assert_eq!(Primitive::Boolean(false), a.greater_than(&b, &Native).unwrap())
    }

#[test]
fn primitive_greater_float_int() {
        let a: Primitive<f64> = Primitive::Float(1.0);
        let b: Primitive<f64> = Primitive::Integer(1);
        assert_eq!(Primitive::Boolean(false), a.greater_than(&b, &Native).unwrap())
    }

#[test]
fn primitive_greater_eq_int() {
        let a: Primitive<f64> = Primitive::Integer(1);
        let b: Primitive<f64> = Primitive::Integer(1);
        assert_eq!(Primitive::Boolean(true), a.greater_than_equal(&b, &Native).unwrap())
    }

#[test]
fn primitive_greater_eq_float() {
        let a: Primitive<f64> = Primitive::Float(1.2);
        let b: Primitive<f64> = Primitive::Float(1.2);
        assert_eq!(Primitive::Boolean(true), a.greater_than_equal(&b, &Native).unwrap())
    }

#[test]
fn primitive_greater_eq_int_float() {
        let a: Primitive<f64> = Primitive::Integer(1);
        let b: Primitive<f64> = Primitive::Float(1.0);
        assert_eq!(Primitive::Boolean(true), a.greater_than_equal(&b, &Native).unwrap())
    }

#[test]
fn primitive_greater_eq_float_int() {
        let a: Primitive<f64> = Primitive::Float(1.0);
        let b: Primitive<f64> = Primitive::Integer(1);
        assert_eq!(Primitive::Boolean(true), a.greater_than_equal(&b, &Native).unwrap())
    }

#[test]
fn primitive_sum_int() {
        let a: Primitive<f64> = Primitive::Integer(1);
        let b: Primitive<f64> = Primitive::Integer(1);
        assert_eq!(Primitive::Integer(2), a.add(&b, &Native).unwrap())
    }

#[test]
fn primitive_sum_float() {
        let a: Primitive<f64> = Primitive::Float(1.0);
        let b: Primitive<f64> = Primitive::Float(1.0);
        assert_eq!(Primitive::Float(2.0), a.add(&b, &Native).unwrap())
    }

#[test]
fn primitive_sum_int_float() {
        let a: Primitive<f64> = Primitive::Integer(1);
        let b: Primitive<f64> = Primitive::Float(1.0);
        assert_eq!(Primitive::Float(2.0), a.add(&b, &Native).unwrap())
    }

#[test]
fn primitive_sum_float_int() {
        let a: Primitive<f64> = Primitive::Float(1.0);
        let b: Primitive<f64> = Primitive::Integer(1);
        assert_eq!(Primitive::Float(2.0), a.add(&b, &Native).unwrap())
    }

#[test]
fn primitive_sub_int() {
        let a: Primitive<f64> = Primitive::Integer(1);
        let b: Primitive<f64> = Primitive::Integer(1);
        assert_eq!(Primitive::Integer(0), a.sub(&b, &Native).unwrap())
    }

#[test]
fn primitive_sub_float() {
        let a: Primitive<f64> = Primitive::Float(1.0);
        let b: Primitive<f64> = Primitive::Float(1.0);
        assert_eq!(Primitive::Float(0.0), a.sub(&b, &Native).unwrap())
    }

#[test]
fn primitive_sub_int_float() {
        let a: Primitive<f64> = Primitive::Integer(1);
        let b: Primitive<f64> = Primitive::Float(1.0);
        assert_eq!(Primitive::Float(0.0), a.sub(&b, &Native).unwrap())
    }

#[test]
fn primitive_sub_float_int() {
        let a: Primitive<f64> = Primitive::Float(1.0);
        let b: Primitive<f64> = Primitive::Integer(1);
        assert_eq!(Primitive::Float(0.0), a.sub(&b, &Native).unwrap())
    }

#[test]
fn primitive_mul_int() {
        let a: Primitive<f64> = Primitive::Integer(1);
        let b: Primitive<f64> = Primitive::Integer(1);
        assert_eq!(Primitive::Integer(1), a.mul(&b, &Native).unwrap())
    }

#[test]
fn primitive_mul_float() {
        let a: Primitive<f64> = Primitive::Float(1.0);
        let b: Primitive<f64> = Primitive::Float(1.0);
        assert_eq!(Primitive::Float(1.0), a.mul(&b, &Native).unwrap())
    }

#[test]
fn primitive_mul_int_float() {
        let a: Primitive<f64> = Primitive::Integer(1);
        let b: Primitive<f64> = Primitive::Float(1.0);
        assert_eq!(Primitive::Float(1.0), a.mul(&b, &Native).unwrap())
    }

#[test]
fn primitive_mul_float_int() {
        let a: Primitive<f64> = Primitive::Float(1.0);
        let b: Primitive<f64> = Primitive::Integer(1);
        assert_eq!(Primitive::Float(1.0), a.mul(&b, &Native).unwrap())
    }

#[test]
fn primitive_div_real_int() {
        let a: Primitive<f64> = Primitive::Integer(1);
        let b: Primitive<f64> = Primitive::Integer(1);
        assert_eq!(Primitive::Float(1.0), a.real_div(&b, &Native).unwrap())
    }

#[test]
fn primitive_div_real_float() {
        let a: Primitive<f64> = Primitive::Float(1.0);
        let b: Primitive<f64> = Primitive::Float(1.0);
        assert_eq!(Primitive::Float(1.0), a.real_div(&b, &Native).unwrap())
    }

#[test]
fn primitive_div_real_int_float() {
        let a: Primitive<f64> = Primitive::Integer(1);
        let b: Primitive<f64> = Primitive::Float(1.0);
        assert_eq!(Primitive::Float(1.0), a.real_div(&b, &Native).unwrap())
    }

#[test]
fn primitive_div_real_float_int() {
        let a: Primitive<f64> = Primitive::Float(1.0);
        let b: Primitive<f64> = Primitive::Integer(1);
        assert_eq!(Primitive::Float(1.0), a.real_div(&b, &Native).unwrap())
    }

#[test]
fn primitive_div_int_int() {
        let a: Primitive<f64> = Primitive::Integer(10);
        let b: Primitive<f64> = Primitive::Integer(2);
        assert_eq!(Primitive::Integer(5), a.int_div(&b).unwrap())
    }

#[test]
fn primitive_is() {
        let a: Primitive<f64> = Primitive::Integer(10);
        let b: Primitive<f64> = Primitive::Integer(2);
        assert_eq!(Primitive::Boolean(true), a.is(&b).unwrap())
    }

#[test]
fn primitive_is_false_result() {
        let a: Primitive<f64> = Primitive::Integer(10);
        let b: Primitive<f64> = Primitive::Float(2.0);
        assert_eq!(Primitive::Boolean(false), a.is(&b).unwrap())
    }

#[test]
fn primitive_unary_minus() {
        let a: Primitive<f64> = Primitive::Integer(10);
        assert_eq!(Primitive::Integer(-10), a.minus(&Native).unwrap())
    }

#[test]
fn primitive_unary_plus() {
        let a: Primitive<f64> = Primitive::Integer(-10);
        assert_eq!(Primitive::Integer(10), a.plus(&Native).unwrap())
    }

#[test]
fn primitive_module() {
        let a: Primitive<f64> = Primitive::Integer(10);
        let b: Primitive<f64> = Primitive::Integer(2);
        assert_eq!(Primitive::Integer(0), a.module(&b, &Native).unwrap())
    }
