use fad::node::ForwardADNode;
use fad::scalar::Scalar;

#[derive(Clone, Copy, Debug, PartialEq)]
struct Single(f32);

impl Scalar for Single {
    fn zero_spec() -> Single {
        Single(0.0)
    }

    fn one_spec() -> Single {
        Single(1.0)
    }

    fn add_spec(self, rhs: Single) -> Single {
        Single(self.0 + rhs.0)
    }

    fn sub_spec(self, rhs: Single) -> Single {
        Single(self.0 - rhs.0)
    }

    fn mul_spec(self, rhs: Single) -> Single {
        Single(self.0 * rhs.0)
    }

    fn div_spec(self, rhs: Single) -> Single {
        Single(self.0 / rhs.0)
    }

    fn neg_spec(self) -> Single {
        Single(-self.0)
    }

    fn zero() -> Single {
        Single(0.0)
    }

    fn one() -> Single {
        Single(1.0)
    }

    fn add(self, rhs: Single) -> Single {
        Single(self.0 + rhs.0)
    }

    fn sub(self, rhs: Single) -> Single {
        Single(self.0 - rhs.0)
    }

    fn mul(self, rhs: Single) -> Single {
        Single(self.0 * rhs.0)
    }

    fn div(self, rhs: Single) -> Single {
        Single(self.0 / rhs.0)
    }

    fn neg(self) -> Single {
        Single(-self.0)
    }
}

fn assert_releq(x: f32, y: f32, tol: f32) {
    let mean = (x + y) / 2.0;
    if mean.abs() < tol * 1e-2 {
        if x.abs() > tol || y.abs() > tol {
            panic!();
        }
    }
    let reldif = (x - y) / mean;
    if reldif.abs() > tol {
        panic!();
    }
}

#[test]
fn test_add_sub() {
    let a = ForwardADNode { order0: Single(1.2), order1: Single(2.3) };
    let b = ForwardADNode { order0: Single(1.4), order1: Single(4.3) };
    {
        let c = a.add(b);
        assert_releq(c.order0.0, 2.6_f32, 1e-5);
        assert_releq(c.order1.0, 6.6_f32, 1e-5);
    }
    {
        let d = a.sub(b);
        assert_releq(d.order0.0, -0.2_f32, 1e-5);
        assert_releq(d.order1.0, -2.0_f32, 1e-5);
    }
    {
        let c = a.sub_scalar(Single(1.1f32));
        assert_releq(c.order0.0, 0.1_f32, 1e-5);
        assert_releq(c.order1.0, 2.3_f32, 1e-5);
    }
    {
        let c = a.sub_scalar(Single(1.1f32));
        assert_releq(c.order0.0, 0.1_f32, 1e-5);
        assert_releq(c.order1.0, 2.3_f32, 1e-5);
    }
    {
        let c = ForwardADNode::scalar_sub(Single(1.1f32), a);
        assert_releq(c.order0.0, -0.1_f32, 1e-5);
        assert_releq(c.order1.0, -2.3_f32, 1e-5);
    }
}

#[test]
fn diff_mul() {
    let a = ForwardADNode { order0: Single(1.2), order1: Single(2.3) };
    let b = ForwardADNode { order0: Single(1.4), order1: Single(4.3) };

    {
        let factor = 3f32;
        let c = a.div_scalar(Single(factor));
        assert_releq(c.order0.0, a.order0.0 / factor, 1e-5);
        assert_releq(c.order1.0, a.order1.0 / factor, 1e-5);
    }
    {
        let factor = 3f32;
        let c = a.mul_scalar(Single(factor));
        assert_releq(c.order0.0, a.order0.0 * factor, 1e-5);
        assert_releq(c.order1.0, a.order1.0 * factor, 1e-5);
    }
    {
        let factor = 3f32;
        let c = ForwardADNode::scalar_div(Single(factor), a);
        assert_releq(c.order0.0, factor / a.order0.0, 1e-5);
        assert_releq(c.order1.0, -4.791666666666666_f32, 1e-5);
    }

    {
        let c = a.mul(b);
        assert_releq(c.order0.0, 1.68_f32, 1e-5);
        assert_releq(c.order1.0, 8.38_f32, 1e-5);
    }
    {
        let c = a.div(b);
        assert_releq(c.order0.0, 0.8571428571428572_f32, 1e-5);
        assert_releq(c.order1.0, -0.9897959183673468_f32, 1e-5);
    }
}

fn node(order0: f32, order1: f32) -> ForwardADNode<Single> {
    ForwardADNode { order0: Single(order0), order1: Single(order1) }
}

fn assert_node(c: ForwardADNode<Single>, order0: f32, order1: f32) {
    assert_releq(c.order0.0, order0, 1e-5);
    assert_releq(c.order1.0, order1, 1e-5);
}

#[test]
fn chain_rule_on_two_nodes() {
    let a = node(1.2, 2.3);
    let b = node(1.4, 4.3);
    assert_node(a.add(b), 2.6, 6.6);
    assert_node(a.sub(b), -0.2, -2.0);
    assert_node(a.mul(b), 1.68, 8.38);
    assert_node(a.div(b), 0.857142857, -0.989795918);
}

#[test]
fn chain_rule_with_scalar_on_the_right() {
    let a = node(1.2, 2.3);
    assert_node(a.add_scalar(Single(1.1)), 2.3, 2.3);
    assert_node(a.sub_scalar(Single(1.1)), 0.1, 2.3);
    assert_node(a.mul_scalar(Single(3.0)), 3.6, 6.9);
    assert_node(a.div_scalar(Single(3.0)), 0.4, 0.766666667);
}

#[test]
fn chain_rule_with_scalar_on_the_left() {
    let a = node(1.2, 2.3);
    assert_node(ForwardADNode::scalar_add(Single(1.1), a), 2.3, 2.3);
    assert_node(ForwardADNode::scalar_sub(Single(1.1), a), -0.1, -2.3);
    assert_node(ForwardADNode::scalar_mul(Single(3.0), a), 3.6, 6.9);
    assert_node(ForwardADNode::scalar_div(Single(3.0), a), 2.5, -4.791666667);
}

#[test]
fn scalar_on_the_left_is_not_a_swap() {
    let a = node(1.2, 2.3);
    let s = Single(3.0);
    let left = ForwardADNode::scalar_sub(s, a);
    let right = a.sub_scalar(s);
    assert_node(left, 1.8, -2.3);
    assert_node(right, -1.8, 2.3);
    let left = ForwardADNode::scalar_div(s, a);
    let right = a.div_scalar(s);
    assert_node(left, 2.5, -4.791666667);
    assert_node(right, 0.4, 0.766666667);
}

#[test]
fn operators_leave_their_operands_alone() {
    let a = node(1.2, 2.3);
    let b = node(1.4, 4.3);
    let _ = a.mul(b);
    let _ = a.div(b);
    assert_eq!(a.order0, Single(1.2));
    assert_eq!(a.order1, Single(2.3));
    assert_eq!(b.order0, Single(1.4));
    assert_eq!(b.order1, Single(4.3));
}

#[test]
fn division_by_a_zero_value_raises_nothing() {
    let a = node(1.0, 2.0);
    let b = node(0.0, 1.0);
    let c = a.div(b);
    assert!(c.order0.0.is_infinite());
    assert!(!c.order1.0.is_finite());
    let d = ForwardADNode::scalar_div(Single(1.0), b);
    assert!(d.order0.0.is_infinite());
    let e = a.div_scalar(Single(0.0));
    assert!(e.order0.0.is_infinite() && e.order1.0.is_infinite());
}

#[test]
fn sine_scales_the_sensitivity_by_the_cosine() {
    let x = node(0.5, 2.0);
    let s = x.sin_from(Single(0.5f32.sin()), Single(0.5f32.cos()));
    assert_node(s, 0.479425539, 1.755165124);
}

#[test]
fn seeds_and_constants() {
    let z: ForwardADNode<Single> = ForwardADNode::zero();
    assert_eq!((z.order0, z.order1), (Single(0.0), Single(0.0)));
    let c = ForwardADNode::constant(Single(1.5));
    assert_eq!((c.order0, c.order1), (Single(1.5), Single(0.0)));
    let v = ForwardADNode::variable(Single(1.5));
    assert_eq!((v.order0, v.order1), (Single(1.5), Single(1.0)));
    // d/dp of p * p at p = 1.5 is 2 * 1.5
    let square = v.mul(v);
    assert_node(square, 2.25, 3.0);
}
