//! Erased encodings of fixed-size tuples: a tuple erases to a list of its
//! components' encodings, positionally, for every arity the engine passes
//! argument lists at.

use vstd::prelude::*;
use crate::convert::{ConversionError, FromTaskInput};
use crate::input::ConcreteTaskInput;
use vstd::string::StringExecFns;

verus! {

impl<A: FromTaskInput> FromTaskInput for (A,) {
    /// A tuple erases to a list of its components' encodings, in order.
    open spec fn encodes(&self, v: &ConcreteTaskInput) -> bool {
        match v {
            ConcreteTaskInput::List(l) => l@.len() == 1 && self.0.encodes(&l@[0]),
            _ => false,
        }
    }

    open spec fn encodable(&self) -> bool {
        self.0.encodable()
    }

    open spec fn erases_to_nothing(&self) -> bool {
        false
    }

    open spec fn accepts(v: &ConcreteTaskInput) -> bool {
        match v {
            ConcreteTaskInput::List(l) => l@.len() == 1 && A::accepts(&l@[0]),
            _ => false,
        }
    }

    proof fn encodes_accepts(&self, v: &ConcreteTaskInput) {
        match v {
            ConcreteTaskInput::List(l) => {
                self.0.encodes_accepts(&l@[0]);
            },
            _ => {},
        }
    }

    proof fn encodes_deterministic(x: &Self, y: &Self, v: &ConcreteTaskInput) {
        match v {
            ConcreteTaskInput::List(l) => {
                A::encodes_deterministic(&x.0, &y.0, &l@[0]);
            },
            _ => {},
        }
    }

    fn try_into_input(self) -> (r: Option<ConcreteTaskInput>) {
        let (x0,) = self;
        let v0 = match x0.try_into_input() {
            None => {
                return None;
            },
            Some(v) => v,
        };
        let mut out: Vec<ConcreteTaskInput> = Vec::new();
        out.push(v0);
        proof {
            assert(out@ =~= seq![v0]);
        }
        Some(ConcreteTaskInput::List(out))
    }

    fn try_from(value: &ConcreteTaskInput) -> (r: Result<Self, ConversionError>) {
        match value {
            ConcreteTaskInput::List(l) => {
                if l.len() != 1 {
                    return Err(ConversionError { expected: String::from_str("list") });
                }
                let y0 = match <A as FromTaskInput>::try_from(&l[0]) {
                    Ok(y) => y,
                    Err(e) => {
                        return Err(e);
                    },
                };
                Ok((y0,))
            },
            _ => Err(ConversionError { expected: String::from_str("list") }),
        }
    }
}

impl<A: FromTaskInput, B: FromTaskInput> FromTaskInput for (A, B) {
    /// A tuple erases to a list of its components' encodings, in order.
    open spec fn encodes(&self, v: &ConcreteTaskInput) -> bool {
        match v {
            ConcreteTaskInput::List(l) => l@.len() == 2 && self.0.encodes(&l@[0]) && self.1.encodes(&l@[1]),
            _ => false,
        }
    }

    open spec fn encodable(&self) -> bool {
        self.0.encodable() && self.1.encodable()
    }

    open spec fn erases_to_nothing(&self) -> bool {
        false
    }

    open spec fn accepts(v: &ConcreteTaskInput) -> bool {
        match v {
            ConcreteTaskInput::List(l) => l@.len() == 2 && A::accepts(&l@[0]) && B::accepts(&l@[1]),
            _ => false,
        }
    }

    proof fn encodes_accepts(&self, v: &ConcreteTaskInput) {
        match v {
            ConcreteTaskInput::List(l) => {
                self.0.encodes_accepts(&l@[0]);
                self.1.encodes_accepts(&l@[1]);
            },
            _ => {},
        }
    }

    proof fn encodes_deterministic(x: &Self, y: &Self, v: &ConcreteTaskInput) {
        match v {
            ConcreteTaskInput::List(l) => {
                A::encodes_deterministic(&x.0, &y.0, &l@[0]);
                B::encodes_deterministic(&x.1, &y.1, &l@[1]);
            },
            _ => {},
        }
    }

    fn try_into_input(self) -> (r: Option<ConcreteTaskInput>) {
        let (x0, x1) = self;
        let v0 = match x0.try_into_input() {
            None => {
                return None;
            },
            Some(v) => v,
        };
        let v1 = match x1.try_into_input() {
            None => {
                return None;
            },
            Some(v) => v,
        };
        let mut out: Vec<ConcreteTaskInput> = Vec::new();
        out.push(v0);
        out.push(v1);
        proof {
            assert(out@ =~= seq![v0, v1]);
        }
        Some(ConcreteTaskInput::List(out))
    }

    fn try_from(value: &ConcreteTaskInput) -> (r: Result<Self, ConversionError>) {
        match value {
            ConcreteTaskInput::List(l) => {
                if l.len() != 2 {
                    return Err(ConversionError { expected: String::from_str("list") });
                }
                let y0 = match <A as FromTaskInput>::try_from(&l[0]) {
                    Ok(y) => y,
                    Err(e) => {
                        return Err(e);
                    },
                };
                let y1 = match <B as FromTaskInput>::try_from(&l[1]) {
                    Ok(y) => y,
                    Err(e) => {
                        return Err(e);
                    },
                };
                Ok((y0, y1))
            },
            _ => Err(ConversionError { expected: String::from_str("list") }),
        }
    }
}

impl<A: FromTaskInput, B: FromTaskInput, C: FromTaskInput> FromTaskInput for (A, B, C) {
    /// A tuple erases to a list of its components' encodings, in order.
    open spec fn encodes(&self, v: &ConcreteTaskInput) -> bool {
        match v {
            ConcreteTaskInput::List(l) => l@.len() == 3 && self.0.encodes(&l@[0]) && self.1.encodes(&l@[1]) && self.2.encodes(&l@[2]),
            _ => false,
        }
    }

    open spec fn encodable(&self) -> bool {
        self.0.encodable() && self.1.encodable() && self.2.encodable()
    }

    open spec fn erases_to_nothing(&self) -> bool {
        false
    }

    open spec fn accepts(v: &ConcreteTaskInput) -> bool {
        match v {
            ConcreteTaskInput::List(l) => l@.len() == 3 && A::accepts(&l@[0]) && B::accepts(&l@[1]) && C::accepts(&l@[2]),
            _ => false,
        }
    }

    proof fn encodes_accepts(&self, v: &ConcreteTaskInput) {
        match v {
            ConcreteTaskInput::List(l) => {
                self.0.encodes_accepts(&l@[0]);
                self.1.encodes_accepts(&l@[1]);
                self.2.encodes_accepts(&l@[2]);
            },
            _ => {},
        }
    }

    proof fn encodes_deterministic(x: &Self, y: &Self, v: &ConcreteTaskInput) {
        match v {
            ConcreteTaskInput::List(l) => {
                A::encodes_deterministic(&x.0, &y.0, &l@[0]);
                B::encodes_deterministic(&x.1, &y.1, &l@[1]);
                C::encodes_deterministic(&x.2, &y.2, &l@[2]);
            },
            _ => {},
        }
    }

    fn try_into_input(self) -> (r: Option<ConcreteTaskInput>) {
        let (x0, x1, x2) = self;
        let v0 = match x0.try_into_input() {
            None => {
                return None;
            },
            Some(v) => v,
        };
        let v1 = match x1.try_into_input() {
            None => {
                return None;
            },
            Some(v) => v,
        };
        let v2 = match x2.try_into_input() {
            None => {
                return None;
            },
            Some(v) => v,
        };
        let mut out: Vec<ConcreteTaskInput> = Vec::new();
        out.push(v0);
        out.push(v1);
        out.push(v2);
        proof {
            assert(out@ =~= seq![v0, v1, v2]);
        }
        Some(ConcreteTaskInput::List(out))
    }

    fn try_from(value: &ConcreteTaskInput) -> (r: Result<Self, ConversionError>) {
        match value {
            ConcreteTaskInput::List(l) => {
                if l.len() != 3 {
                    return Err(ConversionError { expected: String::from_str("list") });
                }
                let y0 = match <A as FromTaskInput>::try_from(&l[0]) {
                    Ok(y) => y,
                    Err(e) => {
                        return Err(e);
                    },
                };
                let y1 = match <B as FromTaskInput>::try_from(&l[1]) {
                    Ok(y) => y,
                    Err(e) => {
                        return Err(e);
                    },
                };
                let y2 = match <C as FromTaskInput>::try_from(&l[2]) {
                    Ok(y) => y,
                    Err(e) => {
                        return Err(e);
                    },
                };
                Ok((y0, y1, y2))
            },
            _ => Err(ConversionError { expected: String::from_str("list") }),
        }
    }
}

impl<A: FromTaskInput, B: FromTaskInput, C: FromTaskInput, D: FromTaskInput> FromTaskInput for (A, B, C, D) {
    /// A tuple erases to a list of its components' encodings, in order.
    open spec fn encodes(&self, v: &ConcreteTaskInput) -> bool {
        match v {
            ConcreteTaskInput::List(l) => l@.len() == 4 && self.0.encodes(&l@[0]) && self.1.encodes(&l@[1]) && self.2.encodes(&l@[2]) && self.3.encodes(&l@[3]),
            _ => false,
        }
    }

    open spec fn encodable(&self) -> bool {
        self.0.encodable() && self.1.encodable() && self.2.encodable() && self.3.encodable()
    }

    open spec fn erases_to_nothing(&self) -> bool {
        false
    }

    open spec fn accepts(v: &ConcreteTaskInput) -> bool {
        match v {
            ConcreteTaskInput::List(l) => l@.len() == 4 && A::accepts(&l@[0]) && B::accepts(&l@[1]) && C::accepts(&l@[2]) && D::accepts(&l@[3]),
            _ => false,
        }
    }

    proof fn encodes_accepts(&self, v: &ConcreteTaskInput) {
        match v {
            ConcreteTaskInput::List(l) => {
                self.0.encodes_accepts(&l@[0]);
                self.1.encodes_accepts(&l@[1]);
                self.2.encodes_accepts(&l@[2]);
                self.3.encodes_accepts(&l@[3]);
            },
            _ => {},
        }
    }

    proof fn encodes_deterministic(x: &Self, y: &Self, v: &ConcreteTaskInput) {
        match v {
            ConcreteTaskInput::List(l) => {
                A::encodes_deterministic(&x.0, &y.0, &l@[0]);
                B::encodes_deterministic(&x.1, &y.1, &l@[1]);
                C::encodes_deterministic(&x.2, &y.2, &l@[2]);
                D::encodes_deterministic(&x.3, &y.3, &l@[3]);
            },
            _ => {},
        }
    }

    fn try_into_input(self) -> (r: Option<ConcreteTaskInput>) {
        let (x0, x1, x2, x3) = self;
        let v0 = match x0.try_into_input() {
            None => {
                return None;
            },
            Some(v) => v,
        };
        let v1 = match x1.try_into_input() {
            None => {
                return None;
            },
            Some(v) => v,
        };
        let v2 = match x2.try_into_input() {
            None => {
                return None;
            },
            Some(v) => v,
        };
        let v3 = match x3.try_into_input() {
            None => {
                return None;
            },
            Some(v) => v,
        };
        let mut out: Vec<ConcreteTaskInput> = Vec::new();
        out.push(v0);
        out.push(v1);
        out.push(v2);
        out.push(v3);
        proof {
            assert(out@ =~= seq![v0, v1, v2, v3]);
        }
        Some(ConcreteTaskInput::List(out))
    }

    fn try_from(value: &ConcreteTaskInput) -> (r: Result<Self, ConversionError>) {
        match value {
            ConcreteTaskInput::List(l) => {
                if l.len() != 4 {
                    return Err(ConversionError { expected: String::from_str("list") });
                }
                let y0 = match <A as FromTaskInput>::try_from(&l[0]) {
                    Ok(y) => y,
                    Err(e) => {
                        return Err(e);
                    },
                };
                let y1 = match <B as FromTaskInput>::try_from(&l[1]) {
                    Ok(y) => y,
                    Err(e) => {
                        return Err(e);
                    },
                };
                let y2 = match <C as FromTaskInput>::try_from(&l[2]) {
                    Ok(y) => y,
                    Err(e) => {
                        return Err(e);
                    },
                };
                let y3 = match <D as FromTaskInput>::try_from(&l[3]) {
                    Ok(y) => y,
                    Err(e) => {
                        return Err(e);
                    },
                };
                Ok((y0, y1, y2, y3))
            },
            _ => Err(ConversionError { expected: String::from_str("list") }),
        }
    }
}

impl<A: FromTaskInput, B: FromTaskInput, C: FromTaskInput, D: FromTaskInput, E: FromTaskInput> FromTaskInput for (A, B, C, D, E) {
    /// A tuple erases to a list of its components' encodings, in order.
    open spec fn encodes(&self, v: &ConcreteTaskInput) -> bool {
        match v {
            ConcreteTaskInput::List(l) => l@.len() == 5 && self.0.encodes(&l@[0]) && self.1.encodes(&l@[1]) && self.2.encodes(&l@[2]) && self.3.encodes(&l@[3]) && self.4.encodes(&l@[4]),
            _ => false,
        }
    }

    open spec fn encodable(&self) -> bool {
        self.0.encodable() && self.1.encodable() && self.2.encodable() && self.3.encodable() && self.4.encodable()
    }

    open spec fn erases_to_nothing(&self) -> bool {
        false
    }

    open spec fn accepts(v: &ConcreteTaskInput) -> bool {
        match v {
            ConcreteTaskInput::List(l) => l@.len() == 5 && A::accepts(&l@[0]) && B::accepts(&l@[1]) && C::accepts(&l@[2]) && D::accepts(&l@[3]) && E::accepts(&l@[4]),
            _ => false,
        }
    }

    proof fn encodes_accepts(&self, v: &ConcreteTaskInput) {
        match v {
            ConcreteTaskInput::List(l) => {
                self.0.encodes_accepts(&l@[0]);
                self.1.encodes_accepts(&l@[1]);
                self.2.encodes_accepts(&l@[2]);
                self.3.encodes_accepts(&l@[3]);
                self.4.encodes_accepts(&l@[4]);
            },
            _ => {},
        }
    }

    proof fn encodes_deterministic(x: &Self, y: &Self, v: &ConcreteTaskInput) {
        match v {
            ConcreteTaskInput::List(l) => {
                A::encodes_deterministic(&x.0, &y.0, &l@[0]);
                B::encodes_deterministic(&x.1, &y.1, &l@[1]);
                C::encodes_deterministic(&x.2, &y.2, &l@[2]);
                D::encodes_deterministic(&x.3, &y.3, &l@[3]);
                E::encodes_deterministic(&x.4, &y.4, &l@[4]);
            },
            _ => {},
        }
    }

    fn try_into_input(self) -> (r: Option<ConcreteTaskInput>) {
        let (x0, x1, x2, x3, x4) = self;
        let v0 = match x0.try_into_input() {
            None => {
                return None;
            },
            Some(v) => v,
        };
        let v1 = match x1.try_into_input() {
            None => {
                return None;
            },
            Some(v) => v,
        };
        let v2 = match x2.try_into_input() {
            None => {
                return None;
            },
            Some(v) => v,
        };
        let v3 = match x3.try_into_input() {
            None => {
                return None;
            },
            Some(v) => v,
        };
        let v4 = match x4.try_into_input() {
            None => {
                return None;
            },
            Some(v) => v,
        };
        let mut out: Vec<ConcreteTaskInput> = Vec::new();
        out.push(v0);
        out.push(v1);
        out.push(v2);
        out.push(v3);
        out.push(v4);
        proof {
            assert(out@ =~= seq![v0, v1, v2, v3, v4]);
        }
        Some(ConcreteTaskInput::List(out))
    }

    fn try_from(value: &ConcreteTaskInput) -> (r: Result<Self, ConversionError>) {
        match value {
            ConcreteTaskInput::List(l) => {
                if l.len() != 5 {
                    return Err(ConversionError { expected: String::from_str("list") });
                }
                let y0 = match <A as FromTaskInput>::try_from(&l[0]) {
                    Ok(y) => y,
                    Err(e) => {
                        return Err(e);
                    },
                };
                let y1 = match <B as FromTaskInput>::try_from(&l[1]) {
                    Ok(y) => y,
                    Err(e) => {
                        return Err(e);
                    },
                };
                let y2 = match <C as FromTaskInput>::try_from(&l[2]) {
                    Ok(y) => y,
                    Err(e) => {
                        return Err(e);
                    },
                };
                let y3 = match <D as FromTaskInput>::try_from(&l[3]) {
                    Ok(y) => y,
                    Err(e) => {
                        return Err(e);
                    },
                };
                let y4 = match <E as FromTaskInput>::try_from(&l[4]) {
                    Ok(y) => y,
                    Err(e) => {
                        return Err(e);
                    },
                };
                Ok((y0, y1, y2, y3, y4))
            },
            _ => Err(ConversionError { expected: String::from_str("list") }),
        }
    }
}

impl<A: FromTaskInput, B: FromTaskInput, C: FromTaskInput, D: FromTaskInput, E: FromTaskInput, F: FromTaskInput> FromTaskInput for (A, B, C, D, E, F) {
    /// A tuple erases to a list of its components' encodings, in order.
    open spec fn encodes(&self, v: &ConcreteTaskInput) -> bool {
        match v {
            ConcreteTaskInput::List(l) => l@.len() == 6 && self.0.encodes(&l@[0]) && self.1.encodes(&l@[1]) && self.2.encodes(&l@[2]) && self.3.encodes(&l@[3]) && self.4.encodes(&l@[4]) && self.5.encodes(&l@[5]),
            _ => false,
        }
    }

    open spec fn encodable(&self) -> bool {
        self.0.encodable() && self.1.encodable() && self.2.encodable() && self.3.encodable() && self.4.encodable() && self.5.encodable()
    }

    open spec fn erases_to_nothing(&self) -> bool {
        false
    }

    open spec fn accepts(v: &ConcreteTaskInput) -> bool {
        match v {
            ConcreteTaskInput::List(l) => l@.len() == 6 && A::accepts(&l@[0]) && B::accepts(&l@[1]) && C::accepts(&l@[2]) && D::accepts(&l@[3]) && E::accepts(&l@[4]) && F::accepts(&l@[5]),
            _ => false,
        }
    }

    proof fn encodes_accepts(&self, v: &ConcreteTaskInput) {
        match v {
            ConcreteTaskInput::List(l) => {
                self.0.encodes_accepts(&l@[0]);
                self.1.encodes_accepts(&l@[1]);
                self.2.encodes_accepts(&l@[2]);
                self.3.encodes_accepts(&l@[3]);
                self.4.encodes_accepts(&l@[4]);
                self.5.encodes_accepts(&l@[5]);
            },
            _ => {},
        }
    }

    proof fn encodes_deterministic(x: &Self, y: &Self, v: &ConcreteTaskInput) {
        match v {
            ConcreteTaskInput::List(l) => {
                A::encodes_deterministic(&x.0, &y.0, &l@[0]);
                B::encodes_deterministic(&x.1, &y.1, &l@[1]);
                C::encodes_deterministic(&x.2, &y.2, &l@[2]);
                D::encodes_deterministic(&x.3, &y.3, &l@[3]);
                E::encodes_deterministic(&x.4, &y.4, &l@[4]);
                F::encodes_deterministic(&x.5, &y.5, &l@[5]);
            },
            _ => {},
        }
    }

    fn try_into_input(self) -> (r: Option<ConcreteTaskInput>) {
        let (x0, x1, x2, x3, x4, x5) = self;
        let v0 = match x0.try_into_input() {
            None => {
                return None;
            },
            Some(v) => v,
        };
        let v1 = match x1.try_into_input() {
            None => {
                return None;
            },
            Some(v) => v,
        };
        let v2 = match x2.try_into_input() {
            None => {
                return None;
            },
            Some(v) => v,
        };
        let v3 = match x3.try_into_input() {
            None => {
                return None;
            },
            Some(v) => v,
        };
        let v4 = match x4.try_into_input() {
            None => {
                return None;
            },
            Some(v) => v,
        };
        let v5 = match x5.try_into_input() {
            None => {
                return None;
            },
            Some(v) => v,
        };
        let mut out: Vec<ConcreteTaskInput> = Vec::new();
        out.push(v0);
        out.push(v1);
        out.push(v2);
        out.push(v3);
        out.push(v4);
        out.push(v5);
        proof {
            assert(out@ =~= seq![v0, v1, v2, v3, v4, v5]);
        }
        Some(ConcreteTaskInput::List(out))
    }

    fn try_from(value: &ConcreteTaskInput) -> (r: Result<Self, ConversionError>) {
        match value {
            ConcreteTaskInput::List(l) => {
                if l.len() != 6 {
                    return Err(ConversionError { expected: String::from_str("list") });
                }
                let y0 = match <A as FromTaskInput>::try_from(&l[0]) {
                    Ok(y) => y,
                    Err(e) => {
                        return Err(e);
                    },
                };
                let y1 = match <B as FromTaskInput>::try_from(&l[1]) {
                    Ok(y) => y,
                    Err(e) => {
                        return Err(e);
                    },
                };
                let y2 = match <C as FromTaskInput>::try_from(&l[2]) {
                    Ok(y) => y,
                    Err(e) => {
                        return Err(e);
                    },
                };
                let y3 = match <D as FromTaskInput>::try_from(&l[3]) {
                    Ok(y) => y,
                    Err(e) => {
                        return Err(e);
                    },
                };
                let y4 = match <E as FromTaskInput>::try_from(&l[4]) {
                    Ok(y) => y,
                    Err(e) => {
                        return Err(e);
                    },
                };
                let y5 = match <F as FromTaskInput>::try_from(&l[5]) {
                    Ok(y) => y,
                    Err(e) => {
                        return Err(e);
                    },
                };
                Ok((y0, y1, y2, y3, y4, y5))
            },
            _ => Err(ConversionError { expected: String::from_str("list") }),
        }
    }
}

impl<A: FromTaskInput, B: FromTaskInput, C: FromTaskInput, D: FromTaskInput, E: FromTaskInput, F: FromTaskInput, G: FromTaskInput> FromTaskInput for (A, B, C, D, E, F, G) {
    /// A tuple erases to a list of its components' encodings, in order.
    open spec fn encodes(&self, v: &ConcreteTaskInput) -> bool {
        match v {
            ConcreteTaskInput::List(l) => l@.len() == 7 && self.0.encodes(&l@[0]) && self.1.encodes(&l@[1]) && self.2.encodes(&l@[2]) && self.3.encodes(&l@[3]) && self.4.encodes(&l@[4]) && self.5.encodes(&l@[5]) && self.6.encodes(&l@[6]),
            _ => false,
        }
    }

    open spec fn encodable(&self) -> bool {
        self.0.encodable() && self.1.encodable() && self.2.encodable() && self.3.encodable() && self.4.encodable() && self.5.encodable() && self.6.encodable()
    }

    open spec fn erases_to_nothing(&self) -> bool {
        false
    }

    open spec fn accepts(v: &ConcreteTaskInput) -> bool {
        match v {
            ConcreteTaskInput::List(l) => l@.len() == 7 && A::accepts(&l@[0]) && B::accepts(&l@[1]) && C::accepts(&l@[2]) && D::accepts(&l@[3]) && E::accepts(&l@[4]) && F::accepts(&l@[5]) && G::accepts(&l@[6]),
            _ => false,
        }
    }

    proof fn encodes_accepts(&self, v: &ConcreteTaskInput) {
        match v {
            ConcreteTaskInput::List(l) => {
                self.0.encodes_accepts(&l@[0]);
                self.1.encodes_accepts(&l@[1]);
                self.2.encodes_accepts(&l@[2]);
                self.3.encodes_accepts(&l@[3]);
                self.4.encodes_accepts(&l@[4]);
                self.5.encodes_accepts(&l@[5]);
                self.6.encodes_accepts(&l@[6]);
            },
            _ => {},
        }
    }

    proof fn encodes_deterministic(x: &Self, y: &Self, v: &ConcreteTaskInput) {
        match v {
            ConcreteTaskInput::List(l) => {
                A::encodes_deterministic(&x.0, &y.0, &l@[0]);
                B::encodes_deterministic(&x.1, &y.1, &l@[1]);
                C::encodes_deterministic(&x.2, &y.2, &l@[2]);
                D::encodes_deterministic(&x.3, &y.3, &l@[3]);
                E::encodes_deterministic(&x.4, &y.4, &l@[4]);
                F::encodes_deterministic(&x.5, &y.5, &l@[5]);
                G::encodes_deterministic(&x.6, &y.6, &l@[6]);
            },
            _ => {},
        }
    }

    fn try_into_input(self) -> (r: Option<ConcreteTaskInput>) {
        let (x0, x1, x2, x3, x4, x5, x6) = self;
        let v0 = match x0.try_into_input() {
            None => {
                return None;
            },
            Some(v) => v,
        };
        let v1 = match x1.try_into_input() {
            None => {
                return None;
            },
            Some(v) => v,
        };
        let v2 = match x2.try_into_input() {
            None => {
                return None;
            },
            Some(v) => v,
        };
        let v3 = match x3.try_into_input() {
            None => {
                return None;
            },
            Some(v) => v,
        };
        let v4 = match x4.try_into_input() {
            None => {
                return None;
            },
            Some(v) => v,
        };
        let v5 = match x5.try_into_input() {
            None => {
                return None;
            },
            Some(v) => v,
        };
        let v6 = match x6.try_into_input() {
            None => {
                return None;
            },
            Some(v) => v,
        };
        let mut out: Vec<ConcreteTaskInput> = Vec::new();
        out.push(v0);
        out.push(v1);
        out.push(v2);
        out.push(v3);
        out.push(v4);
        out.push(v5);
        out.push(v6);
        proof {
            assert(out@ =~= seq![v0, v1, v2, v3, v4, v5, v6]);
        }
        Some(ConcreteTaskInput::List(out))
    }

    fn try_from(value: &ConcreteTaskInput) -> (r: Result<Self, ConversionError>) {
        match value {
            ConcreteTaskInput::List(l) => {
                if l.len() != 7 {
                    return Err(ConversionError { expected: String::from_str("list") });
                }
                let y0 = match <A as FromTaskInput>::try_from(&l[0]) {
                    Ok(y) => y,
                    Err(e) => {
                        return Err(e);
                    },
                };
                let y1 = match <B as FromTaskInput>::try_from(&l[1]) {
                    Ok(y) => y,
                    Err(e) => {
                        return Err(e);
                    },
                };
                let y2 = match <C as FromTaskInput>::try_from(&l[2]) {
                    Ok(y) => y,
                    Err(e) => {
                        return Err(e);
                    },
                };
                let y3 = match <D as FromTaskInput>::try_from(&l[3]) {
                    Ok(y) => y,
                    Err(e) => {
                        return Err(e);
                    },
                };
                let y4 = match <E as FromTaskInput>::try_from(&l[4]) {
                    Ok(y) => y,
                    Err(e) => {
                        return Err(e);
                    },
                };
                let y5 = match <F as FromTaskInput>::try_from(&l[5]) {
                    Ok(y) => y,
                    Err(e) => {
                        return Err(e);
                    },
                };
                let y6 = match <G as FromTaskInput>::try_from(&l[6]) {
                    Ok(y) => y,
                    Err(e) => {
                        return Err(e);
                    },
                };
                Ok((y0, y1, y2, y3, y4, y5, y6))
            },
            _ => Err(ConversionError { expected: String::from_str("list") }),
        }
    }
}

impl<A: FromTaskInput, B: FromTaskInput, C: FromTaskInput, D: FromTaskInput, E: FromTaskInput, F: FromTaskInput, G: FromTaskInput, H: FromTaskInput> FromTaskInput for (A, B, C, D, E, F, G, H) {
    /// A tuple erases to a list of its components' encodings, in order.
    open spec fn encodes(&self, v: &ConcreteTaskInput) -> bool {
        match v {
            ConcreteTaskInput::List(l) => l@.len() == 8 && self.0.encodes(&l@[0]) && self.1.encodes(&l@[1]) && self.2.encodes(&l@[2]) && self.3.encodes(&l@[3]) && self.4.encodes(&l@[4]) && self.5.encodes(&l@[5]) && self.6.encodes(&l@[6]) && self.7.encodes(&l@[7]),
            _ => false,
        }
    }

    open spec fn encodable(&self) -> bool {
        self.0.encodable() && self.1.encodable() && self.2.encodable() && self.3.encodable() && self.4.encodable() && self.5.encodable() && self.6.encodable() && self.7.encodable()
    }

    open spec fn erases_to_nothing(&self) -> bool {
        false
    }

    open spec fn accepts(v: &ConcreteTaskInput) -> bool {
        match v {
            ConcreteTaskInput::List(l) => l@.len() == 8 && A::accepts(&l@[0]) && B::accepts(&l@[1]) && C::accepts(&l@[2]) && D::accepts(&l@[3]) && E::accepts(&l@[4]) && F::accepts(&l@[5]) && G::accepts(&l@[6]) && H::accepts(&l@[7]),
            _ => false,
        }
    }

    proof fn encodes_accepts(&self, v: &ConcreteTaskInput) {
        match v {
            ConcreteTaskInput::List(l) => {
                self.0.encodes_accepts(&l@[0]);
                self.1.encodes_accepts(&l@[1]);
                self.2.encodes_accepts(&l@[2]);
                self.3.encodes_accepts(&l@[3]);
                self.4.encodes_accepts(&l@[4]);
                self.5.encodes_accepts(&l@[5]);
                self.6.encodes_accepts(&l@[6]);
                self.7.encodes_accepts(&l@[7]);
            },
            _ => {},
        }
    }

    proof fn encodes_deterministic(x: &Self, y: &Self, v: &ConcreteTaskInput) {
        match v {
            ConcreteTaskInput::List(l) => {
                A::encodes_deterministic(&x.0, &y.0, &l@[0]);
                B::encodes_deterministic(&x.1, &y.1, &l@[1]);
                C::encodes_deterministic(&x.2, &y.2, &l@[2]);
                D::encodes_deterministic(&x.3, &y.3, &l@[3]);
                E::encodes_deterministic(&x.4, &y.4, &l@[4]);
                F::encodes_deterministic(&x.5, &y.5, &l@[5]);
                G::encodes_deterministic(&x.6, &y.6, &l@[6]);
                H::encodes_deterministic(&x.7, &y.7, &l@[7]);
            },
            _ => {},
        }
    }

    fn try_into_input(self) -> (r: Option<ConcreteTaskInput>) {
        let (x0, x1, x2, x3, x4, x5, x6, x7) = self;
        let v0 = match x0.try_into_input() {
            None => {
                return None;
            },
            Some(v) => v,
        };
        let v1 = match x1.try_into_input() {
            None => {
                return None;
            },
            Some(v) => v,
        };
        let v2 = match x2.try_into_input() {
            None => {
                return None;
            },
            Some(v) => v,
        };
        let v3 = match x3.try_into_input() {
            None => {
                return None;
            },
            Some(v) => v,
        };
        let v4 = match x4.try_into_input() {
            None => {
                return None;
            },
            Some(v) => v,
        };
        let v5 = match x5.try_into_input() {
            None => {
                return None;
            },
            Some(v) => v,
        };
        let v6 = match x6.try_into_input() {
            None => {
                return None;
            },
            Some(v) => v,
        };
        let v7 = match x7.try_into_input() {
            None => {
                return None;
            },
            Some(v) => v,
        };
        let mut out: Vec<ConcreteTaskInput> = Vec::new();
        out.push(v0);
        out.push(v1);
        out.push(v2);
        out.push(v3);
        out.push(v4);
        out.push(v5);
        out.push(v6);
        out.push(v7);
        proof {
            assert(out@ =~= seq![v0, v1, v2, v3, v4, v5, v6, v7]);
        }
        Some(ConcreteTaskInput::List(out))
    }

    fn try_from(value: &ConcreteTaskInput) -> (r: Result<Self, ConversionError>) {
        match value {
            ConcreteTaskInput::List(l) => {
                if l.len() != 8 {
                    return Err(ConversionError { expected: String::from_str("list") });
                }
                let y0 = match <A as FromTaskInput>::try_from(&l[0]) {
                    Ok(y) => y,
                    Err(e) => {
                        return Err(e);
                    },
                };
                let y1 = match <B as FromTaskInput>::try_from(&l[1]) {
                    Ok(y) => y,
                    Err(e) => {
                        return Err(e);
                    },
                };
                let y2 = match <C as FromTaskInput>::try_from(&l[2]) {
                    Ok(y) => y,
                    Err(e) => {
                        return Err(e);
                    },
                };
                let y3 = match <D as FromTaskInput>::try_from(&l[3]) {
                    Ok(y) => y,
                    Err(e) => {
                        return Err(e);
                    },
                };
                let y4 = match <E as FromTaskInput>::try_from(&l[4]) {
                    Ok(y) => y,
                    Err(e) => {
                        return Err(e);
                    },
                };
                let y5 = match <F as FromTaskInput>::try_from(&l[5]) {
                    Ok(y) => y,
                    Err(e) => {
                        return Err(e);
                    },
                };
                let y6 = match <G as FromTaskInput>::try_from(&l[6]) {
                    Ok(y) => y,
                    Err(e) => {
                        return Err(e);
                    },
                };
                let y7 = match <H as FromTaskInput>::try_from(&l[7]) {
                    Ok(y) => y,
                    Err(e) => {
                        return Err(e);
                    },
                };
                Ok((y0, y1, y2, y3, y4, y5, y6, y7))
            },
            _ => Err(ConversionError { expected: String::from_str("list") }),
        }
    }
}

impl<A: FromTaskInput, B: FromTaskInput, C: FromTaskInput, D: FromTaskInput, E: FromTaskInput, F: FromTaskInput, G: FromTaskInput, H: FromTaskInput, I: FromTaskInput> FromTaskInput for (A, B, C, D, E, F, G, H, I) {
    /// A tuple erases to a list of its components' encodings, in order.
    open spec fn encodes(&self, v: &ConcreteTaskInput) -> bool {
        match v {
            ConcreteTaskInput::List(l) => l@.len() == 9 && self.0.encodes(&l@[0]) && self.1.encodes(&l@[1]) && self.2.encodes(&l@[2]) && self.3.encodes(&l@[3]) && self.4.encodes(&l@[4]) && self.5.encodes(&l@[5]) && self.6.encodes(&l@[6]) && self.7.encodes(&l@[7]) && self.8.encodes(&l@[8]),
            _ => false,
        }
    }

    open spec fn encodable(&self) -> bool {
        self.0.encodable() && self.1.encodable() && self.2.encodable() && self.3.encodable() && self.4.encodable() && self.5.encodable() && self.6.encodable() && self.7.encodable() && self.8.encodable()
    }

    open spec fn erases_to_nothing(&self) -> bool {
        false
    }

    open spec fn accepts(v: &ConcreteTaskInput) -> bool {
        match v {
            ConcreteTaskInput::List(l) => l@.len() == 9 && A::accepts(&l@[0]) && B::accepts(&l@[1]) && C::accepts(&l@[2]) && D::accepts(&l@[3]) && E::accepts(&l@[4]) && F::accepts(&l@[5]) && G::accepts(&l@[6]) && H::accepts(&l@[7]) && I::accepts(&l@[8]),
            _ => false,
        }
    }

    proof fn encodes_accepts(&self, v: &ConcreteTaskInput) {
        match v {
            ConcreteTaskInput::List(l) => {
                self.0.encodes_accepts(&l@[0]);
                self.1.encodes_accepts(&l@[1]);
                self.2.encodes_accepts(&l@[2]);
                self.3.encodes_accepts(&l@[3]);
                self.4.encodes_accepts(&l@[4]);
                self.5.encodes_accepts(&l@[5]);
                self.6.encodes_accepts(&l@[6]);
                self.7.encodes_accepts(&l@[7]);
                self.8.encodes_accepts(&l@[8]);
            },
            _ => {},
        }
    }

    proof fn encodes_deterministic(x: &Self, y: &Self, v: &ConcreteTaskInput) {
        match v {
            ConcreteTaskInput::List(l) => {
                A::encodes_deterministic(&x.0, &y.0, &l@[0]);
                B::encodes_deterministic(&x.1, &y.1, &l@[1]);
                C::encodes_deterministic(&x.2, &y.2, &l@[2]);
                D::encodes_deterministic(&x.3, &y.3, &l@[3]);
                E::encodes_deterministic(&x.4, &y.4, &l@[4]);
                F::encodes_deterministic(&x.5, &y.5, &l@[5]);
                G::encodes_deterministic(&x.6, &y.6, &l@[6]);
                H::encodes_deterministic(&x.7, &y.7, &l@[7]);
                I::encodes_deterministic(&x.8, &y.8, &l@[8]);
            },
            _ => {},
        }
    }

    fn try_into_input(self) -> (r: Option<ConcreteTaskInput>) {
        let (x0, x1, x2, x3, x4, x5, x6, x7, x8) = self;
        let v0 = match x0.try_into_input() {
            None => {
                return None;
            },
            Some(v) => v,
        };
        let v1 = match x1.try_into_input() {
            None => {
                return None;
            },
            Some(v) => v,
        };
        let v2 = match x2.try_into_input() {
            None => {
                return None;
            },
            Some(v) => v,
        };
        let v3 = match x3.try_into_input() {
            None => {
                return None;
            },
            Some(v) => v,
        };
        let v4 = match x4.try_into_input() {
            None => {
                return None;
            },
            Some(v) => v,
        };
        let v5 = match x5.try_into_input() {
            None => {
                return None;
            },
            Some(v) => v,
        };
        let v6 = match x6.try_into_input() {
            None => {
                return None;
            },
            Some(v) => v,
        };
        let v7 = match x7.try_into_input() {
            None => {
                return None;
            },
            Some(v) => v,
        };
        let v8 = match x8.try_into_input() {
            None => {
                return None;
            },
            Some(v) => v,
        };
        let mut out: Vec<ConcreteTaskInput> = Vec::new();
        out.push(v0);
        out.push(v1);
        out.push(v2);
        out.push(v3);
        out.push(v4);
        out.push(v5);
        out.push(v6);
        out.push(v7);
        out.push(v8);
        proof {
            assert(out@ =~= seq![v0, v1, v2, v3, v4, v5, v6, v7, v8]);
        }
        Some(ConcreteTaskInput::List(out))
    }

    fn try_from(value: &ConcreteTaskInput) -> (r: Result<Self, ConversionError>) {
        match value {
            ConcreteTaskInput::List(l) => {
                if l.len() != 9 {
                    return Err(ConversionError { expected: String::from_str("list") });
                }
                let y0 = match <A as FromTaskInput>::try_from(&l[0]) {
                    Ok(y) => y,
                    Err(e) => {
                        return Err(e);
                    },
                };
                let y1 = match <B as FromTaskInput>::try_from(&l[1]) {
                    Ok(y) => y,
                    Err(e) => {
                        return Err(e);
                    },
                };
                let y2 = match <C as FromTaskInput>::try_from(&l[2]) {
                    Ok(y) => y,
                    Err(e) => {
                        return Err(e);
                    },
                };
                let y3 = match <D as FromTaskInput>::try_from(&l[3]) {
                    Ok(y) => y,
                    Err(e) => {
                        return Err(e);
                    },
                };
                let y4 = match <E as FromTaskInput>::try_from(&l[4]) {
                    Ok(y) => y,
                    Err(e) => {
                        return Err(e);
                    },
                };
                let y5 = match <F as FromTaskInput>::try_from(&l[5]) {
                    Ok(y) => y,
                    Err(e) => {
                        return Err(e);
                    },
                };
                let y6 = match <G as FromTaskInput>::try_from(&l[6]) {
                    Ok(y) => y,
                    Err(e) => {
                        return Err(e);
                    },
                };
                let y7 = match <H as FromTaskInput>::try_from(&l[7]) {
                    Ok(y) => y,
                    Err(e) => {
                        return Err(e);
                    },
                };
                let y8 = match <I as FromTaskInput>::try_from(&l[8]) {
                    Ok(y) => y,
                    Err(e) => {
                        return Err(e);
                    },
                };
                Ok((y0, y1, y2, y3, y4, y5, y6, y7, y8))
            },
            _ => Err(ConversionError { expected: String::from_str("list") }),
        }
    }
}

impl<A: FromTaskInput, B: FromTaskInput, C: FromTaskInput, D: FromTaskInput, E: FromTaskInput, F: FromTaskInput, G: FromTaskInput, H: FromTaskInput, I: FromTaskInput, J: FromTaskInput> FromTaskInput for (A, B, C, D, E, F, G, H, I, J) {
    /// A tuple erases to a list of its components' encodings, in order.
    open spec fn encodes(&self, v: &ConcreteTaskInput) -> bool {
        match v {
            ConcreteTaskInput::List(l) => l@.len() == 10 && self.0.encodes(&l@[0]) && self.1.encodes(&l@[1]) && self.2.encodes(&l@[2]) && self.3.encodes(&l@[3]) && self.4.encodes(&l@[4]) && self.5.encodes(&l@[5]) && self.6.encodes(&l@[6]) && self.7.encodes(&l@[7]) && self.8.encodes(&l@[8]) && self.9.encodes(&l@[9]),
            _ => false,
        }
    }

    open spec fn encodable(&self) -> bool {
        self.0.encodable() && self.1.encodable() && self.2.encodable() && self.3.encodable() && self.4.encodable() && self.5.encodable() && self.6.encodable() && self.7.encodable() && self.8.encodable() && self.9.encodable()
    }

    open spec fn erases_to_nothing(&self) -> bool {
        false
    }

    open spec fn accepts(v: &ConcreteTaskInput) -> bool {
        match v {
            ConcreteTaskInput::List(l) => l@.len() == 10 && A::accepts(&l@[0]) && B::accepts(&l@[1]) && C::accepts(&l@[2]) && D::accepts(&l@[3]) && E::accepts(&l@[4]) && F::accepts(&l@[5]) && G::accepts(&l@[6]) && H::accepts(&l@[7]) && I::accepts(&l@[8]) && J::accepts(&l@[9]),
            _ => false,
        }
    }

    proof fn encodes_accepts(&self, v: &ConcreteTaskInput) {
        match v {
            ConcreteTaskInput::List(l) => {
                self.0.encodes_accepts(&l@[0]);
                self.1.encodes_accepts(&l@[1]);
                self.2.encodes_accepts(&l@[2]);
                self.3.encodes_accepts(&l@[3]);
                self.4.encodes_accepts(&l@[4]);
                self.5.encodes_accepts(&l@[5]);
                self.6.encodes_accepts(&l@[6]);
                self.7.encodes_accepts(&l@[7]);
                self.8.encodes_accepts(&l@[8]);
                self.9.encodes_accepts(&l@[9]);
            },
            _ => {},
        }
    }

    proof fn encodes_deterministic(x: &Self, y: &Self, v: &ConcreteTaskInput) {
        match v {
            ConcreteTaskInput::List(l) => {
                A::encodes_deterministic(&x.0, &y.0, &l@[0]);
                B::encodes_deterministic(&x.1, &y.1, &l@[1]);
                C::encodes_deterministic(&x.2, &y.2, &l@[2]);
                D::encodes_deterministic(&x.3, &y.3, &l@[3]);
                E::encodes_deterministic(&x.4, &y.4, &l@[4]);
                F::encodes_deterministic(&x.5, &y.5, &l@[5]);
                G::encodes_deterministic(&x.6, &y.6, &l@[6]);
                H::encodes_deterministic(&x.7, &y.7, &l@[7]);
                I::encodes_deterministic(&x.8, &y.8, &l@[8]);
                J::encodes_deterministic(&x.9, &y.9, &l@[9]);
            },
            _ => {},
        }
    }

    fn try_into_input(self) -> (r: Option<ConcreteTaskInput>) {
        let (x0, x1, x2, x3, x4, x5, x6, x7, x8, x9) = self;
        let v0 = match x0.try_into_input() {
            None => {
                return None;
            },
            Some(v) => v,
        };
        let v1 = match x1.try_into_input() {
            None => {
                return None;
            },
            Some(v) => v,
        };
        let v2 = match x2.try_into_input() {
            None => {
                return None;
            },
            Some(v) => v,
        };
        let v3 = match x3.try_into_input() {
            None => {
                return None;
            },
            Some(v) => v,
        };
        let v4 = match x4.try_into_input() {
            None => {
                return None;
            },
            Some(v) => v,
        };
        let v5 = match x5.try_into_input() {
            None => {
                return None;
            },
            Some(v) => v,
        };
        let v6 = match x6.try_into_input() {
            None => {
                return None;
            },
            Some(v) => v,
        };
        let v7 = match x7.try_into_input() {
            None => {
                return None;
            },
            Some(v) => v,
        };
        let v8 = match x8.try_into_input() {
            None => {
                return None;
            },
            Some(v) => v,
        };
        let v9 = match x9.try_into_input() {
            None => {
                return None;
            },
            Some(v) => v,
        };
        let mut out: Vec<ConcreteTaskInput> = Vec::new();
        out.push(v0);
        out.push(v1);
        out.push(v2);
        out.push(v3);
        out.push(v4);
        out.push(v5);
        out.push(v6);
        out.push(v7);
        out.push(v8);
        out.push(v9);
        proof {
            assert(out@ =~= seq![v0, v1, v2, v3, v4, v5, v6, v7, v8, v9]);
        }
        Some(ConcreteTaskInput::List(out))
    }

    fn try_from(value: &ConcreteTaskInput) -> (r: Result<Self, ConversionError>) {
        match value {
            ConcreteTaskInput::List(l) => {
                if l.len() != 10 {
                    return Err(ConversionError { expected: String::from_str("list") });
                }
                let y0 = match <A as FromTaskInput>::try_from(&l[0]) {
                    Ok(y) => y,
                    Err(e) => {
                        return Err(e);
                    },
                };
                let y1 = match <B as FromTaskInput>::try_from(&l[1]) {
                    Ok(y) => y,
                    Err(e) => {
                        return Err(e);
                    },
                };
                let y2 = match <C as FromTaskInput>::try_from(&l[2]) {
                    Ok(y) => y,
                    Err(e) => {
                        return Err(e);
                    },
                };
                let y3 = match <D as FromTaskInput>::try_from(&l[3]) {
                    Ok(y) => y,
                    Err(e) => {
                        return Err(e);
                    },
                };
                let y4 = match <E as FromTaskInput>::try_from(&l[4]) {
                    Ok(y) => y,
                    Err(e) => {
                        return Err(e);
                    },
                };
                let y5 = match <F as FromTaskInput>::try_from(&l[5]) {
                    Ok(y) => y,
                    Err(e) => {
                        return Err(e);
                    },
                };
                let y6 = match <G as FromTaskInput>::try_from(&l[6]) {
                    Ok(y) => y,
                    Err(e) => {
                        return Err(e);
                    },
                };
                let y7 = match <H as FromTaskInput>::try_from(&l[7]) {
                    Ok(y) => y,
                    Err(e) => {
                        return Err(e);
                    },
                };
                let y8 = match <I as FromTaskInput>::try_from(&l[8]) {
                    Ok(y) => y,
                    Err(e) => {
                        return Err(e);
                    },
                };
                let y9 = match <J as FromTaskInput>::try_from(&l[9]) {
                    Ok(y) => y,
                    Err(e) => {
                        return Err(e);
                    },
                };
                Ok((y0, y1, y2, y3, y4, y5, y6, y7, y8, y9))
            },
            _ => Err(ConversionError { expected: String::from_str("list") }),
        }
    }
}

impl<A: FromTaskInput, B: FromTaskInput, C: FromTaskInput, D: FromTaskInput, E: FromTaskInput, F: FromTaskInput, G: FromTaskInput, H: FromTaskInput, I: FromTaskInput, J: FromTaskInput, K: FromTaskInput> FromTaskInput for (A, B, C, D, E, F, G, H, I, J, K) {
    /// A tuple erases to a list of its components' encodings, in order.
    open spec fn encodes(&self, v: &ConcreteTaskInput) -> bool {
        match v {
            ConcreteTaskInput::List(l) => l@.len() == 11 && self.0.encodes(&l@[0]) && self.1.encodes(&l@[1]) && self.2.encodes(&l@[2]) && self.3.encodes(&l@[3]) && self.4.encodes(&l@[4]) && self.5.encodes(&l@[5]) && self.6.encodes(&l@[6]) && self.7.encodes(&l@[7]) && self.8.encodes(&l@[8]) && self.9.encodes(&l@[9]) && self.10.encodes(&l@[10]),
            _ => false,
        }
    }

    open spec fn encodable(&self) -> bool {
        self.0.encodable() && self.1.encodable() && self.2.encodable() && self.3.encodable() && self.4.encodable() && self.5.encodable() && self.6.encodable() && self.7.encodable() && self.8.encodable() && self.9.encodable() && self.10.encodable()
    }

    open spec fn erases_to_nothing(&self) -> bool {
        false
    }

    open spec fn accepts(v: &ConcreteTaskInput) -> bool {
        match v {
            ConcreteTaskInput::List(l) => l@.len() == 11 && A::accepts(&l@[0]) && B::accepts(&l@[1]) && C::accepts(&l@[2]) && D::accepts(&l@[3]) && E::accepts(&l@[4]) && F::accepts(&l@[5]) && G::accepts(&l@[6]) && H::accepts(&l@[7]) && I::accepts(&l@[8]) && J::accepts(&l@[9]) && K::accepts(&l@[10]),
            _ => false,
        }
    }

    proof fn encodes_accepts(&self, v: &ConcreteTaskInput) {
        match v {
            ConcreteTaskInput::List(l) => {
                self.0.encodes_accepts(&l@[0]);
                self.1.encodes_accepts(&l@[1]);
                self.2.encodes_accepts(&l@[2]);
                self.3.encodes_accepts(&l@[3]);
                self.4.encodes_accepts(&l@[4]);
                self.5.encodes_accepts(&l@[5]);
                self.6.encodes_accepts(&l@[6]);
                self.7.encodes_accepts(&l@[7]);
                self.8.encodes_accepts(&l@[8]);
                self.9.encodes_accepts(&l@[9]);
                self.10.encodes_accepts(&l@[10]);
            },
            _ => {},
        }
    }

    proof fn encodes_deterministic(x: &Self, y: &Self, v: &ConcreteTaskInput) {
        match v {
            ConcreteTaskInput::List(l) => {
                A::encodes_deterministic(&x.0, &y.0, &l@[0]);
                B::encodes_deterministic(&x.1, &y.1, &l@[1]);
                C::encodes_deterministic(&x.2, &y.2, &l@[2]);
                D::encodes_deterministic(&x.3, &y.3, &l@[3]);
                E::encodes_deterministic(&x.4, &y.4, &l@[4]);
                F::encodes_deterministic(&x.5, &y.5, &l@[5]);
                G::encodes_deterministic(&x.6, &y.6, &l@[6]);
                H::encodes_deterministic(&x.7, &y.7, &l@[7]);
                I::encodes_deterministic(&x.8, &y.8, &l@[8]);
                J::encodes_deterministic(&x.9, &y.9, &l@[9]);
                K::encodes_deterministic(&x.10, &y.10, &l@[10]);
            },
            _ => {},
        }
    }

    fn try_into_input(self) -> (r: Option<ConcreteTaskInput>) {
        let (x0, x1, x2, x3, x4, x5, x6, x7, x8, x9, x10) = self;
        let v0 = match x0.try_into_input() {
            None => {
                return None;
            },
            Some(v) => v,
        };
        let v1 = match x1.try_into_input() {
            None => {
                return None;
            },
            Some(v) => v,
        };
        let v2 = match x2.try_into_input() {
            None => {
                return None;
            },
            Some(v) => v,
        };
        let v3 = match x3.try_into_input() {
            None => {
                return None;
            },
            Some(v) => v,
        };
        let v4 = match x4.try_into_input() {
            None => {
                return None;
            },
            Some(v) => v,
        };
        let v5 = match x5.try_into_input() {
            None => {
                return None;
            },
            Some(v) => v,
        };
        let v6 = match x6.try_into_input() {
            None => {
                return None;
            },
            Some(v) => v,
        };
        let v7 = match x7.try_into_input() {
            None => {
                return None;
            },
            Some(v) => v,
        };
        let v8 = match x8.try_into_input() {
            None => {
                return None;
            },
            Some(v) => v,
        };
        let v9 = match x9.try_into_input() {
            None => {
                return None;
            },
            Some(v) => v,
        };
        let v10 = match x10.try_into_input() {
            None => {
                return None;
            },
            Some(v) => v,
        };
        let mut out: Vec<ConcreteTaskInput> = Vec::new();
        out.push(v0);
        out.push(v1);
        out.push(v2);
        out.push(v3);
        out.push(v4);
        out.push(v5);
        out.push(v6);
        out.push(v7);
        out.push(v8);
        out.push(v9);
        out.push(v10);
        proof {
            assert(out@ =~= seq![v0, v1, v2, v3, v4, v5, v6, v7, v8, v9, v10]);
        }
        Some(ConcreteTaskInput::List(out))
    }

    fn try_from(value: &ConcreteTaskInput) -> (r: Result<Self, ConversionError>) {
        match value {
            ConcreteTaskInput::List(l) => {
                if l.len() != 11 {
                    return Err(ConversionError { expected: String::from_str("list") });
                }
                let y0 = match <A as FromTaskInput>::try_from(&l[0]) {
                    Ok(y) => y,
                    Err(e) => {
                        return Err(e);
                    },
                };
                let y1 = match <B as FromTaskInput>::try_from(&l[1]) {
                    Ok(y) => y,
                    Err(e) => {
                        return Err(e);
                    },
                };
                let y2 = match <C as FromTaskInput>::try_from(&l[2]) {
                    Ok(y) => y,
                    Err(e) => {
                        return Err(e);
                    },
                };
                let y3 = match <D as FromTaskInput>::try_from(&l[3]) {
                    Ok(y) => y,
                    Err(e) => {
                        return Err(e);
                    },
                };
                let y4 = match <E as FromTaskInput>::try_from(&l[4]) {
                    Ok(y) => y,
                    Err(e) => {
                        return Err(e);
                    },
                };
                let y5 = match <F as FromTaskInput>::try_from(&l[5]) {
                    Ok(y) => y,
                    Err(e) => {
                        return Err(e);
                    },
                };
                let y6 = match <G as FromTaskInput>::try_from(&l[6]) {
                    Ok(y) => y,
                    Err(e) => {
                        return Err(e);
                    },
                };
                let y7 = match <H as FromTaskInput>::try_from(&l[7]) {
                    Ok(y) => y,
                    Err(e) => {
                        return Err(e);
                    },
                };
                let y8 = match <I as FromTaskInput>::try_from(&l[8]) {
                    Ok(y) => y,
                    Err(e) => {
                        return Err(e);
                    },
                };
                let y9 = match <J as FromTaskInput>::try_from(&l[9]) {
                    Ok(y) => y,
                    Err(e) => {
                        return Err(e);
                    },
                };
                let y10 = match <K as FromTaskInput>::try_from(&l[10]) {
                    Ok(y) => y,
                    Err(e) => {
                        return Err(e);
                    },
                };
                Ok((y0, y1, y2, y3, y4, y5, y6, y7, y8, y9, y10))
            },
            _ => Err(ConversionError { expected: String::from_str("list") }),
        }
    }
}

impl<A: FromTaskInput, B: FromTaskInput, C: FromTaskInput, D: FromTaskInput, E: FromTaskInput, F: FromTaskInput, G: FromTaskInput, H: FromTaskInput, I: FromTaskInput, J: FromTaskInput, K: FromTaskInput, L: FromTaskInput> FromTaskInput for (A, B, C, D, E, F, G, H, I, J, K, L) {
    /// A tuple erases to a list of its components' encodings, in order.
    open spec fn encodes(&self, v: &ConcreteTaskInput) -> bool {
        match v {
            ConcreteTaskInput::List(l) => l@.len() == 12 && self.0.encodes(&l@[0]) && self.1.encodes(&l@[1]) && self.2.encodes(&l@[2]) && self.3.encodes(&l@[3]) && self.4.encodes(&l@[4]) && self.5.encodes(&l@[5]) && self.6.encodes(&l@[6]) && self.7.encodes(&l@[7]) && self.8.encodes(&l@[8]) && self.9.encodes(&l@[9]) && self.10.encodes(&l@[10]) && self.11.encodes(&l@[11]),
            _ => false,
        }
    }

    open spec fn encodable(&self) -> bool {
        self.0.encodable() && self.1.encodable() && self.2.encodable() && self.3.encodable() && self.4.encodable() && self.5.encodable() && self.6.encodable() && self.7.encodable() && self.8.encodable() && self.9.encodable() && self.10.encodable() && self.11.encodable()
    }

    open spec fn erases_to_nothing(&self) -> bool {
        false
    }

    open spec fn accepts(v: &ConcreteTaskInput) -> bool {
        match v {
            ConcreteTaskInput::List(l) => l@.len() == 12 && A::accepts(&l@[0]) && B::accepts(&l@[1]) && C::accepts(&l@[2]) && D::accepts(&l@[3]) && E::accepts(&l@[4]) && F::accepts(&l@[5]) && G::accepts(&l@[6]) && H::accepts(&l@[7]) && I::accepts(&l@[8]) && J::accepts(&l@[9]) && K::accepts(&l@[10]) && L::accepts(&l@[11]),
            _ => false,
        }
    }

    proof fn encodes_accepts(&self, v: &ConcreteTaskInput) {
        match v {
            ConcreteTaskInput::List(l) => {
                self.0.encodes_accepts(&l@[0]);
                self.1.encodes_accepts(&l@[1]);
                self.2.encodes_accepts(&l@[2]);
                self.3.encodes_accepts(&l@[3]);
                self.4.encodes_accepts(&l@[4]);
                self.5.encodes_accepts(&l@[5]);
                self.6.encodes_accepts(&l@[6]);
                self.7.encodes_accepts(&l@[7]);
                self.8.encodes_accepts(&l@[8]);
                self.9.encodes_accepts(&l@[9]);
                self.10.encodes_accepts(&l@[10]);
                self.11.encodes_accepts(&l@[11]);
            },
            _ => {},
        }
    }

    proof fn encodes_deterministic(x: &Self, y: &Self, v: &ConcreteTaskInput) {
        match v {
            ConcreteTaskInput::List(l) => {
                A::encodes_deterministic(&x.0, &y.0, &l@[0]);
                B::encodes_deterministic(&x.1, &y.1, &l@[1]);
                C::encodes_deterministic(&x.2, &y.2, &l@[2]);
                D::encodes_deterministic(&x.3, &y.3, &l@[3]);
                E::encodes_deterministic(&x.4, &y.4, &l@[4]);
                F::encodes_deterministic(&x.5, &y.5, &l@[5]);
                G::encodes_deterministic(&x.6, &y.6, &l@[6]);
                H::encodes_deterministic(&x.7, &y.7, &l@[7]);
                I::encodes_deterministic(&x.8, &y.8, &l@[8]);
                J::encodes_deterministic(&x.9, &y.9, &l@[9]);
                K::encodes_deterministic(&x.10, &y.10, &l@[10]);
                L::encodes_deterministic(&x.11, &y.11, &l@[11]);
            },
            _ => {},
        }
    }

    fn try_into_input(self) -> (r: Option<ConcreteTaskInput>) {
        let (x0, x1, x2, x3, x4, x5, x6, x7, x8, x9, x10, x11) = self;
        let v0 = match x0.try_into_input() {
            None => {
                return None;
            },
            Some(v) => v,
        };
        let v1 = match x1.try_into_input() {
            None => {
                return None;
            },
            Some(v) => v,
        };
        let v2 = match x2.try_into_input() {
            None => {
                return None;
            },
            Some(v) => v,
        };
        let v3 = match x3.try_into_input() {
            None => {
                return None;
            },
            Some(v) => v,
        };
        let v4 = match x4.try_into_input() {
            None => {
                return None;
            },
            Some(v) => v,
        };
        let v5 = match x5.try_into_input() {
            None => {
                return None;
            },
            Some(v) => v,
        };
        let v6 = match x6.try_into_input() {
            None => {
                return None;
            },
            Some(v) => v,
        };
        let v7 = match x7.try_into_input() {
            None => {
                return None;
            },
            Some(v) => v,
        };
        let v8 = match x8.try_into_input() {
            None => {
                return None;
            },
            Some(v) => v,
        };
        let v9 = match x9.try_into_input() {
            None => {
                return None;
            },
            Some(v) => v,
        };
        let v10 = match x10.try_into_input() {
            None => {
                return None;
            },
            Some(v) => v,
        };
        let v11 = match x11.try_into_input() {
            None => {
                return None;
            },
            Some(v) => v,
        };
        let mut out: Vec<ConcreteTaskInput> = Vec::new();
        out.push(v0);
        out.push(v1);
        out.push(v2);
        out.push(v3);
        out.push(v4);
        out.push(v5);
        out.push(v6);
        out.push(v7);
        out.push(v8);
        out.push(v9);
        out.push(v10);
        out.push(v11);
        proof {
            assert(out@ =~= seq![v0, v1, v2, v3, v4, v5, v6, v7, v8, v9, v10, v11]);
        }
        Some(ConcreteTaskInput::List(out))
    }

    fn try_from(value: &ConcreteTaskInput) -> (r: Result<Self, ConversionError>) {
        match value {
            ConcreteTaskInput::List(l) => {
                if l.len() != 12 {
                    return Err(ConversionError { expected: String::from_str("list") });
                }
                let y0 = match <A as FromTaskInput>::try_from(&l[0]) {
                    Ok(y) => y,
                    Err(e) => {
                        return Err(e);
                    },
                };
                let y1 = match <B as FromTaskInput>::try_from(&l[1]) {
                    Ok(y) => y,
                    Err(e) => {
                        return Err(e);
                    },
                };
                let y2 = match <C as FromTaskInput>::try_from(&l[2]) {
                    Ok(y) => y,
                    Err(e) => {
                        return Err(e);
                    },
                };
                let y3 = match <D as FromTaskInput>::try_from(&l[3]) {
                    Ok(y) => y,
                    Err(e) => {
                        return Err(e);
                    },
                };
                let y4 = match <E as FromTaskInput>::try_from(&l[4]) {
                    Ok(y) => y,
                    Err(e) => {
                        return Err(e);
                    },
                };
                let y5 = match <F as FromTaskInput>::try_from(&l[5]) {
                    Ok(y) => y,
                    Err(e) => {
                        return Err(e);
                    },
                };
                let y6 = match <G as FromTaskInput>::try_from(&l[6]) {
                    Ok(y) => y,
                    Err(e) => {
                        return Err(e);
                    },
                };
                let y7 = match <H as FromTaskInput>::try_from(&l[7]) {
                    Ok(y) => y,
                    Err(e) => {
                        return Err(e);
                    },
                };
                let y8 = match <I as FromTaskInput>::try_from(&l[8]) {
                    Ok(y) => y,
                    Err(e) => {
                        return Err(e);
                    },
                };
                let y9 = match <J as FromTaskInput>::try_from(&l[9]) {
                    Ok(y) => y,
                    Err(e) => {
                        return Err(e);
                    },
                };
                let y10 = match <K as FromTaskInput>::try_from(&l[10]) {
                    Ok(y) => y,
                    Err(e) => {
                        return Err(e);
                    },
                };
                let y11 = match <L as FromTaskInput>::try_from(&l[11]) {
                    Ok(y) => y,
                    Err(e) => {
                        return Err(e);
                    },
                };
                Ok((y0, y1, y2, y3, y4, y5, y6, y7, y8, y9, y10, y11))
            },
            _ => Err(ConversionError { expected: String::from_str("list") }),
        }
    }
}
} // verus!
