use coral::ast::{Comparison, Operator};
use coral::object::Object;
use coral::primitive::{FloatUnit, Primitive};

struct Native;

impl FloatUnit<f64> for Native {
    fn literal(&self, text: &str) -> f64 {
        text.parse().unwrap_or(f64::NAN)
    }

    fn widen(&self, v: i64) -> f64 {
        v as f64
    }

    fn arith(&self, op: Operator, a: f64, b: f64) -> f64 {
        match op {
            Operator::Add => a + b,
            Operator::Sub => a - b,
            Operator::Mul => a * b,
            Operator::Div => a / b,
            Operator::Mod => a % b,
        }
    }

    fn compare(&self, op: Comparison, a: f64, b: f64) -> bool {
        match op {
            Comparison::Equal => a == b,
            Comparison::NotEqual => a != b,
            Comparison::Greater => a > b,
            Comparison::GreaterThan => a >= b,
            Comparison::Less => a < b,
            _ => a <= b,
        }
    }

    fn negative(&self, a: f64) -> f64 {
        -a
    }
}

#[test]
fn object_negate() {
        let truth: Object<f64> = Object::Primitive(Primitive::Boolean(true));
        assert_eq!(
            Object::Primitive(Primitive::Boolean(false)),
            truth.negate().unwrap()
        )
    }

#[test]
fn object_and() {
        let truth: Object<f64> = Object::Primitive(Primitive::Boolean(true));
        let falsy: Object<f64> = Object::Primitive(Primitive::Boolean(false));

        assert_eq!(
            Object::Primitive(Primitive::Boolean(false)),
            truth.and(&falsy).unwrap()
        )
    }

#[test]
fn object_or() {
        let truth: Object<f64> = Object::Primitive(Primitive::Boolean(true));
        let falsy: Object<f64> = Object::Primitive(Primitive::Boolean(false));

        assert_eq!(
            Object::Primitive(Primitive::Boolean(true)),
            truth.or(&falsy).unwrap()
        )
    }

#[test]
fn object_eq_boolean() {
        let truth: Object<f64> = Object::Primitive(Primitive::Boolean(true));
        let falsy: Object<f64> = Object::Primitive(Primitive::Boolean(false));

        assert_eq!(
            Object::Primitive(Primitive::Boolean(false)),
            truth.equal(&falsy, &Native).unwrap()
        )
    }

#[test]
fn object_eq_int() {
        let a: Object<f64> = Object::Primitive(Primitive::Integer(1));
        let b: Object<f64> = Object::Primitive(Primitive::Integer(1));

        assert_eq!(
            Object::Primitive(Primitive::Boolean(true)),
            a.equal(&b, &Native).unwrap()
        )
    }

#[test]
fn object_eq_float() {
        let a: Object<f64> = Object::Primitive(Primitive::Float(1.2));
        let b: Object<f64> = Object::Primitive(Primitive::Float(1.2));

        assert_eq!(
            Object::Primitive(Primitive::Boolean(true)),
            a.equal(&b, &Native).unwrap()
        )
    }

#[test]
fn object_eq_int_float() {
        let a: Object<f64> = Object::Primitive(Primitive::Integer(1));
        let b: Object<f64> = Object::Primitive(Primitive::Float(1.0));

        assert_eq!(
            Object::Primitive(Primitive::Boolean(true)),
            a.equal(&b, &Native).unwrap()
        )
    }

#[test]
fn object_eq_float_int() {
        let a: Object<f64> = Object::Primitive(Primitive::Float(1.0));
        let b: Object<f64> = Object::Primitive(Primitive::Integer(1));

        assert_eq!(
            Object::Primitive(Primitive::Boolean(true)),
            a.equal(&b, &Native).unwrap()
        )
    }

#[test]
fn object_noteq_boolean() {
        let truth: Object<f64> = Object::Primitive(Primitive::Boolean(true));
        let falsy: Object<f64> = Object::Primitive(Primitive::Boolean(false));

        assert_eq!(
            Object::Primitive(Primitive::Boolean(true)),
            truth.not_equal(&falsy, &Native).unwrap()
        )
    }

#[test]
fn object_noteq_int() {
        let a: Object<f64> = Object::Primitive(Primitive::Integer(1));
        let b: Object<f64> = Object::Primitive(Primitive::Integer(1));

        assert_eq!(
            Object::Primitive(Primitive::Boolean(false)),
            a.not_equal(&b, &Native).unwrap()
        )
    }

#[test]
fn object_noteq_float() {
        let a: Object<f64> = Object::Primitive(Primitive::Float(1.2));
        let b: Object<f64> = Object::Primitive(Primitive::Float(1.2));

        assert_eq!(
            Object::Primitive(Primitive::Boolean(false)),
            a.not_equal(&b, &Native).unwrap()
        )
    }

#[test]
fn object_noteq_int_float() {
        let a: Object<f64> = Object::Primitive(Primitive::Integer(1));
        let b: Object<f64> = Object::Primitive(Primitive::Float(1.0));

        assert_eq!(
            Object::Primitive(Primitive::Boolean(false)),
            a.not_equal(&b, &Native).unwrap()
        )
    }

#[test]
fn object_noteq_float_int() {
        let a: Object<f64> = Object::Primitive(Primitive::Float(1.0));
        let b: Object<f64> = Object::Primitive(Primitive::Integer(1));

        assert_eq!(
            Object::Primitive(Primitive::Boolean(false)),
            a.not_equal(&b, &Native).unwrap()
        )
    }

#[test]
fn object_less_int() {
        let a: Object<f64> = Object::Primitive(Primitive::Integer(1));
        let b: Object<f64> = Object::Primitive(Primitive::Integer(1));
        assert_eq!(
            Object::Primitive(Primitive::Boolean(false)),
            a.less_than(&b, &Native).unwrap()
        )
    }

#[test]
fn object_less_float() {
        let a: Object<f64> = Object::Primitive(Primitive::Float(1.2));
        let b: Object<f64> = Object::Primitive(Primitive::Float(1.2));
        assert_eq!(
            Object::Primitive(Primitive::Boolean(false)),
            a.less_than(&b, &Native).unwrap()
        )
    }

#[test]
fn object_less_int_float() {
        let a: Object<f64> = Object::Primitive(Primitive::Integer(1));
        let b: Object<f64> = Object::Primitive(Primitive::Float(1.0));
        assert_eq!(
            Object::Primitive(Primitive::Boolean(false)),
            a.less_than(&b, &Native).unwrap()
        )
    }

#[test]
fn object_less_float_int() {
        let a: Object<f64> = Object::Primitive(Primitive::Float(1.0));
        let b: Object<f64> = Object::Primitive(Primitive::Integer(1));
        assert_eq!(
            Object::Primitive(Primitive::Boolean(false)),
            a.less_than(&b, &Native).unwrap()
        )
    }

#[test]
fn object_less_eq_int() {
        let a: Object<f64> = Object::Primitive(Primitive::Integer(1));
        let b: Object<f64> = Object::Primitive(Primitive::Integer(1));
        assert_eq!(
            Object::Primitive(Primitive::Boolean(true)),
            a.less_than_equal(&b, &Native).unwrap()
        )
    }

#[test]
fn object_less_eq_float() {
        let a: Object<f64> = Object::Primitive(Primitive::Float(1.2));
        let b: Object<f64> = Object::Primitive(Primitive::Float(1.2));
        assert_eq!(
            Object::Primitive(Primitive::Boolean(true)),
            a.less_than_equal(&b, &Native).unwrap()
        )
    }

#[test]
fn object_less_eq_int_float() {
        let a: Object<f64> = Object::Primitive(Primitive::Integer(1));
        let b: Object<f64> = Object::Primitive(Primitive::Float(1.0));
        assert_eq!(
            Object::Primitive(Primitive::Boolean(true)),
            a.less_than_equal(&b, &Native).unwrap()
        )
    }

#[test]
fn object_less_eq_float_int() {
        let a: Object<f64> = Object::Primitive(Primitive::Float(1.0));
        let b: Object<f64> = Object::Primitive(Primitive::Integer(1));
        assert_eq!(
            Object::Primitive(Primitive::Boolean(true)),
            a.less_than_equal(&b, &Native).unwrap()
        )
    }

#[test]
fn object_greater_int() {
        let a: Object<f64> = Object::Primitive(Primitive::Integer(1));
        let b: Object<f64> = Object::Primitive(Primitive::Integer(1));
        assert_eq!(
            Object::Primitive(Primitive::Boolean(false)),
            a.greater_than(&b, &Native).unwrap()
        )
    }

#[test]
fn object_greater_float() {
        let a: Object<f64> = Object::Primitive(Primitive::Float(1.2));
        let b: Object<f64> = Object::Primitive(Primitive::Float(1.2));
        assert_eq!(
            Object::Primitive(Primitive::Boolean(false)),
            a.greater_than(&b, &Native).unwrap()
        )
    }

#[test]
fn object_greater_int_float() {
        let a: Object<f64> = Object::Primitive(Primitive::Integer(1));
        let b: Object<f64> = Object::Primitive(Primitive::Float(1.0));
        assert_eq!(
            Object::Primitive(Primitive::Boolean(false)),
            a.greater_than(&b, &Native).unwrap()
        )
    }

#[test]
fn object_greater_float_int() {
        let a: Object<f64> = Object::Primitive(Primitive::Float(1.0));
        let b: Object<f64> = Object::Primitive(Primitive::Integer(1));
        assert_eq!(
            Object::Primitive(Primitive::Boolean(false)),
            a.greater_than(&b, &Native).unwrap()
        )
    }

#[test]
fn object_greater_eq_int() {
        let a: Object<f64> = Object::Primitive(Primitive::Integer(1));
        let b: Object<f64> = Object::Primitive(Primitive::Integer(1));
        assert_eq!(
            Object::Primitive(Primitive::Boolean(true)),
            a.greater_than_equal(&b, &Native).unwrap()
        )
    }

#[test]
fn object_greater_eq_float() {
        let a: Object<f64> = Object::Primitive(Primitive::Float(1.2));
        let b: Object<f64> = Object::Primitive(Primitive::Float(1.2));
        assert_eq!(
            Object::Primitive(Primitive::Boolean(true)),
            a.greater_than_equal(&b, &Native).unwrap()
        )
    }

#[test]
fn object_greater_eq_int_float() {
        let a: Object<f64> = Object::Primitive(Primitive::Integer(1));
        let b: Object<f64> = Object::Primitive(Primitive::Float(1.0));
        assert_eq!(
            Object::Primitive(Primitive::Boolean(true)),
            a.greater_than_equal(&b, &Native).unwrap()
        )
    }

#[test]
fn object_greater_eq_float_int() {
        let a: Object<f64> = Object::Primitive(Primitive::Float(1.0));
        let b: Object<f64> = Object::Primitive(Primitive::Integer(1));
        assert_eq!(
            Object::Primitive(Primitive::Boolean(true)),
            a.greater_than_equal(&b, &Native).unwrap()
        )
    }

#[test]
fn object_sum_int() {
        let a: Object<f64> = Object::Primitive(Primitive::Integer(1));
        let b: Object<f64> = Object::Primitive(Primitive::Integer(1));
        assert_eq!(Object::Primitive(Primitive::Integer(2)), a.add(&b, &Native).unwrap())
    }

#[test]
fn object_sum_float() {
        let a: Object<f64> = Object::Primitive(Primitive::Float(1.0));
        let b: Object<f64> = Object::Primitive(Primitive::Float(1.0));
        assert_eq!(Object::Primitive(Primitive::Float(2.0)), a.add(&b, &Native).unwrap())
    }

#[test]
fn object_sum_int_float() {
        let a: Object<f64> = Object::Primitive(Primitive::Integer(1));
        let b: Object<f64> = Object::Primitive(Primitive::Float(1.0));
        assert_eq!(Object::Primitive(Primitive::Float(2.0)), a.add(&b, &Native).unwrap())
    }

#[test]
fn object_sum_float_int() {
        let a: Object<f64> = Object::Primitive(Primitive::Float(1.0));
        let b: Object<f64> = Object::Primitive(Primitive::Integer(1));
        assert_eq!(Object::Primitive(Primitive::Float(2.0)), a.add(&b, &Native).unwrap())
    }

#[test]
fn object_sub_int() {
        let a: Object<f64> = Object::Primitive(Primitive::Integer(1));
        let b: Object<f64> = Object::Primitive(Primitive::Integer(1));
        assert_eq!(
            Object::Primitive(Primitive::Integer(0)),
            a.subtract(&b, &Native).unwrap()
        )
    }

#[test]
fn object_sub_float() {
        let a: Object<f64> = Object::Primitive(Primitive::Float(1.0));
        let b: Object<f64> = Object::Primitive(Primitive::Float(1.0));
        assert_eq!(
            Object::Primitive(Primitive::Float(0.0)),
            a.subtract(&b, &Native).unwrap()
        )
    }

#[test]
fn object_sub_int_float() {
        let a: Object<f64> = Object::Primitive(Primitive::Integer(1));
        let b: Object<f64> = Object::Primitive(Primitive::Float(1.0));
        assert_eq!(
            Object::Primitive(Primitive::Float(0.0)),
            a.subtract(&b, &Native).unwrap()
        )
    }

#[test]
fn object_sub_float_int() {
        let a: Object<f64> = Object::Primitive(Primitive::Float(1.0));
        let b: Object<f64> = Object::Primitive(Primitive::Integer(1));
        assert_eq!(
            Object::Primitive(Primitive::Float(0.0)),
            a.subtract(&b, &Native).unwrap()
        )
    }

#[test]
fn object_mul_int() {
        let a: Object<f64> = Object::Primitive(Primitive::Integer(1));
        let b: Object<f64> = Object::Primitive(Primitive::Integer(1));
        assert_eq!(
            Object::Primitive(Primitive::Integer(1)),
            a.multiply(&b, &Native).unwrap()
        )
    }

#[test]
fn object_mul_float() {
        let a: Object<f64> = Object::Primitive(Primitive::Float(1.0));
        let b: Object<f64> = Object::Primitive(Primitive::Float(1.0));
        assert_eq!(
            Object::Primitive(Primitive::Float(1.0)),
            a.multiply(&b, &Native).unwrap()
        )
    }

#[test]
fn object_mul_int_float() {
        let a: Object<f64> = Object::Primitive(Primitive::Integer(1));
        let b: Object<f64> = Object::Primitive(Primitive::Float(1.0));
        assert_eq!(
            Object::Primitive(Primitive::Float(1.0)),
            a.multiply(&b, &Native).unwrap()
        )
    }

#[test]
fn object_mul_float_int() {
        let a: Object<f64> = Object::Primitive(Primitive::Float(1.0));
        let b: Object<f64> = Object::Primitive(Primitive::Integer(1));
        assert_eq!(
            Object::Primitive(Primitive::Float(1.0)),
            a.multiply(&b, &Native).unwrap()
        )
    }

#[test]
fn object_div_real_int() {
        let a: Object<f64> = Object::Primitive(Primitive::Integer(1));
        let b: Object<f64> = Object::Primitive(Primitive::Integer(1));
        assert_eq!(
            Object::Primitive(Primitive::Float(1.0)),
            a.real_divide(&b, &Native).unwrap()
        )
    }

#[test]
fn object_div_real_float() {
        let a: Object<f64> = Object::Primitive(Primitive::Float(1.0));
        let b: Object<f64> = Object::Primitive(Primitive::Float(1.0));
        assert_eq!(
            Object::Primitive(Primitive::Float(1.0)),
            a.real_divide(&b, &Native).unwrap()
        )
    }

#[test]
fn object_div_real_int_float() {
        let a: Object<f64> = Object::Primitive(Primitive::Integer(1));
        let b: Object<f64> = Object::Primitive(Primitive::Float(1.0));
        assert_eq!(
            Object::Primitive(Primitive::Float(1.0)),
            a.real_divide(&b, &Native).unwrap()
        )
    }

#[test]
fn object_div_real_float_int() {
        let a: Object<f64> = Object::Primitive(Primitive::Float(1.0));
        let b: Object<f64> = Object::Primitive(Primitive::Integer(1));
        assert_eq!(
            Object::Primitive(Primitive::Float(1.0)),
            a.real_divide(&b, &Native).unwrap()
        )
    }

#[test]
fn object_div_int_int() {
        let a: Object<f64> = Object::Primitive(Primitive::Integer(10));
        let b: Object<f64> = Object::Primitive(Primitive::Integer(2));
        assert_eq!(
            Object::Primitive(Primitive::Integer(5)),
            a.int_divide(&b).unwrap()
        )
    }

#[test]
fn object_is() {
        let a: Object<f64> = Object::Primitive(Primitive::Integer(10));
        let b: Object<f64> = Object::Primitive(Primitive::Integer(2));
        assert_eq!(
            Object::Primitive(Primitive::Boolean(true)),
            a.is(&b).unwrap()
        )
    }

#[test]
fn object_is_false_result() {
        let a: Object<f64> = Object::Primitive(Primitive::Integer(10));
        let b: Object<f64> = Object::Primitive(Primitive::Float(2.0));
        assert_eq!(
            Object::Primitive(Primitive::Boolean(false)),
            a.is(&b).unwrap()
        )
    }

#[test]
fn object_unary_minus() {
        let a: Object<f64> = Object::Primitive(Primitive::Integer(10));
        assert_eq!(
            Object::Primitive(Primitive::Integer(-10)),
            a.unary_minus(&Native).unwrap()
        )
    }

#[test]
fn object_unary_plus() {
        let a: Object<f64> = Object::Primitive(Primitive::Integer(-10));
        assert_eq!(
            Object::Primitive(Primitive::Integer(10)),
            a.unary_plus(&Native).unwrap()
        )
    }

#[test]
fn object_module() {
        let a: Object<f64> = Object::Primitive(Primitive::Integer(10));
        let b: Object<f64> = Object::Primitive(Primitive::Integer(2));
        assert_eq!(
            Object::Primitive(Primitive::Integer(0)),
            a.module(&b, &Native).unwrap()
        )
    }
