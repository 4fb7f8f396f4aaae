//! Typed scalar values, the type-erased references through which the
//! evaluator hands them to scalar functions, and the capability a value type
//! needs in order to take part in generic scalar functions.

use vstd::prelude::*;

verus! {

/// A floating-point SQL value, carried as its IEEE-754 bit pattern. The
/// control-flow operators never compute with reals — they only classify and
/// forward them — so the payload stays opaque here.
#[derive(Clone, Copy, Debug, PartialEq, Eq, Structural)]
pub struct Real {
    bits: u64,
}

impl Real {
    /// Wraps a bit pattern produced elsewhere (for example by the evaluator's
    /// decoder) as a real value.
    pub fn from_bits(bits: u64) -> (r: Real)
        ensures
            r@ == bits,
    {
        Real { bits }
    }

    /// The bit pattern this value carries.
    pub fn to_bits(&self) -> (r: u64)
        ensures
            r == self@,
    {
        self.bits
    }
}

impl View for Real {
    type V = u64;

    closed spec fn view(&self) -> u64 {
        self.bits
    }
}

/// The mathematical content of one type-erased scalar value: one variant per
/// SQL value type this core supports, each carrying a present-or-NULL payload.
pub enum ValView {
    Int(Option<i64>),
    Real(Option<u64>),
    Bytes(Option<Seq<u8>>),
}

/// The view of a present-or-NULL value: the payload's view, under the same
/// presence flag.
pub open spec fn opt_view<T: View>(v: Option<T>) -> Option<T::V> {
    match v {
        Some(x) => Some(x@),
        None => None,
    }
}

/// An owned scalar value of one of the supported SQL value types, paired with
/// its presence flag; `None` is SQL NULL.
pub enum ScalarValue {
    Int(Option<i64>),
    Real(Option<Real>),
    Bytes(Option<Vec<u8>>),
}

/// A borrowed, type-erased handle to one scalar value. The evaluator creates
/// one per argument per invocation; ownership stays with its argument buffer.
#[derive(Clone, Copy)]
pub enum ScalarValueRef<'a> {
    Int(&'a Option<i64>),
    Real(&'a Option<Real>),
    Bytes(&'a Option<Vec<u8>>),
}

impl View for ScalarValue {
    type V = ValView;

    open spec fn view(&self) -> ValView {
        match self {
            ScalarValue::Int(o) => ValView::Int(opt_view(*o)),
            ScalarValue::Real(o) => ValView::Real(opt_view(*o)),
            ScalarValue::Bytes(o) => ValView::Bytes(opt_view(*o)),
        }
    }
}

impl<'a> View for ScalarValueRef<'a> {
    type V = ValView;

    open spec fn view(&self) -> ValView {
        match self {
            ScalarValueRef::Int(o) => ValView::Int(opt_view(**o)),
            ScalarValueRef::Real(o) => ValView::Real(opt_view(**o)),
            ScalarValueRef::Bytes(o) => ValView::Bytes(opt_view(**o)),
        }
    }
}

impl ScalarValue {
    /// Lends this value out as a type-erased reference; the reference presents
    /// the same content as the value it borrows.
    pub fn as_scalar_value_ref<'a>(&'a self) -> (r: ScalarValueRef<'a>)
        ensures
            r@ == self@,
    {
        match self {
            ScalarValue::Int(o) => ScalarValueRef::Int(o),
            ScalarValue::Real(o) => ScalarValueRef::Real(o),
            ScalarValue::Bytes(o) => ScalarValueRef::Bytes(o),
        }
    }
}

/// The capability a scalar value type needs in order to take part in generic
/// scalar functions: it can be borrowed out of a type-erased reference already
/// known (through the function catalog) to hold exactly this type, and cloned
/// into an owned result. Extraction is never attempted on a reference of
/// another type — that is a contract the caller upholds, not a runtime check.
pub trait Evaluable: View + Sized {
    /// Whether a type-erased value holds this value type.
    spec fn holds(v: ValView) -> bool;

    /// The present-or-NULL payload of a type-erased value of this type.
    spec fn value_of(v: ValView) -> Option<Self::V>;

    /// Whether a type-erased reference holds this value type: the per-branch
    /// type check the catalog can run when it binds an instantiation, instead
    /// of trusting homogeneity.
    fn holds_scalar_value_ref(v: &ScalarValueRef<'_>) -> (r: bool)
        ensures
            r == Self::holds(v@),
    ;

    /// Borrows the payload out of a reference that holds this type, without
    /// copying it.
    fn borrow_scalar_value_ref<'a>(v: &'a ScalarValueRef<'a>) -> (r: &'a Option<Self>)
        requires
            Self::holds(v@),
        ensures
            opt_view(*r) == Self::value_of(v@),
    ;

    /// Clones a borrowed payload into an owned, independently lifetimed result
    /// (a deep copy for heap-backed types, a plain copy for scalars).
    fn into_owned(v: &Option<Self>) -> (r: Option<Self>)
        ensures
            opt_view(r) == opt_view(*v),
    ;
}

impl Evaluable for i64 {
    open spec fn holds(v: ValView) -> bool {
        v is Int
    }

    open spec fn value_of(v: ValView) -> Option<i64> {
        v->Int_0
    }

    fn holds_scalar_value_ref(v: &ScalarValueRef<'_>) -> bool {
        match *v {
            ScalarValueRef::Int(_) => true,
            _ => false,
        }
    }

    fn borrow_scalar_value_ref<'a>(v: &'a ScalarValueRef<'a>) -> (r: &'a Option<i64>) {
        match *v {
            ScalarValueRef::Int(o) => o,
            _ => vstd::pervasive::unreached(),
        }
    }

    fn into_owned(v: &Option<i64>) -> (r: Option<i64>) {
        match v {
            Some(x) => Some(*x),
            None => None,
        }
    }
}

impl Evaluable for Real {
    open spec fn holds(v: ValView) -> bool {
        v is Real
    }

    open spec fn value_of(v: ValView) -> Option<u64> {
        v->Real_0
    }

    fn holds_scalar_value_ref(v: &ScalarValueRef<'_>) -> bool {
        match *v {
            ScalarValueRef::Real(_) => true,
            _ => false,
        }
    }

    fn borrow_scalar_value_ref<'a>(v: &'a ScalarValueRef<'a>) -> (r: &'a Option<Real>) {
        match *v {
            ScalarValueRef::Real(o) => o,
            _ => vstd::pervasive::unreached(),
        }
    }

    fn into_owned(v: &Option<Real>) -> (r: Option<Real>) {
        match v {
            Some(x) => Some(*x),
            None => None,
        }
    }
}

impl Evaluable for Vec<u8> {
    open spec fn holds(v: ValView) -> bool {
        v is Bytes
    }

    open spec fn value_of(v: ValView) -> Option<Seq<u8>> {
        v->Bytes_0
    }

    fn holds_scalar_value_ref(v: &ScalarValueRef<'_>) -> bool {
        match *v {
            ScalarValueRef::Bytes(_) => true,
            _ => false,
        }
    }

    fn borrow_scalar_value_ref<'a>(v: &'a ScalarValueRef<'a>) -> (r: &'a Option<Vec<u8>>) {
        match *v {
            ScalarValueRef::Bytes(o) => o,
            _ => vstd::pervasive::unreached(),
        }
    }

    fn into_owned(v: &Option<Vec<u8>>) -> (r: Option<Vec<u8>>) {
        match v {
            Some(b) => {
                let c = b.clone();
                proof {
                    assert forall|i: int| 0 <= i < b@.len() implies b@[i] == c@[i] by {
                        assert(vstd::pervasive::cloned::<u8>(b@[i], c@[i]));
                    }
                    assert(c@ =~= b@);
                }
                Some(c)
            },
            None => None,
        }
    }
}

} // verus!
