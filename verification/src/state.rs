//! The stored values, the identity of their owners and the configuration
//! record.

use vstd::prelude::*;
use vstd::string::StringExecFns;
use crate::error::ContractError;

verus! {

/// The identity of a caller: an opaque text.
#[derive(Debug, PartialEq, Eq)]
pub struct Addr {
    text: String,
}

impl View for Addr {
    type V = Seq<char>;

    closed spec fn view(&self) -> Seq<char> {
        self.text@
    }
}

impl Addr {
    /// The identity written as `input`; nothing is checked.
    pub fn unchecked(input: &str) -> (addr: Addr)
        ensures
            addr@ == input@,
    {
        Addr { text: String::from_str(input) }
    }

    /// The text of the identity.
    pub fn as_str(&self) -> (text: &str)
        ensures
            text@ == self@,
    {
        self.text.as_str()
    }

    /// The text of the identity, as a `String` of its own.
    pub fn to_string(&self) -> (text: String)
        ensures
            text@ == self@,
    {
        self.text.clone()
    }

}

impl Clone for Addr {
    fn clone(&self) -> (copy: Addr)
        ensures
            copy@ == self@,
    {
        Addr { text: self.text.clone() }
    }
}

/// The configuration record: who initialized the store.
#[derive(Debug, PartialEq)]
pub struct Config {
    pub owner: Addr,
}

impl Clone for Config {
    fn clone(&self) -> (copy: Config)
        ensures
            copy.owner@ == self.owner@,
    {
        Config { owner: self.owner.clone() }
    }
}

/// A stored value: one of four shapes.
#[derive(Debug, PartialEq)]
pub enum Primitive {
    Uint128(u128),
    String(String),
    Bool(bool),
    Vec(Vec<Primitive>),
}

/// What a `Primitive` stands for.
pub enum PrimitiveView {
    Uint128(u128),
    String(Seq<char>),
    Bool(bool),
    Vec(Seq<PrimitiveView>),
}

impl PrimitiveView {
    /// A list is invalid when one of its items is a list. Nothing else is.
    pub open spec fn is_invalid(self) -> bool {
        match self {
            PrimitiveView::Vec(items) => exists|i: int|
                0 <= i < items.len() && #[trigger] items[i] is Vec,
            _ => false,
        }
    }

    /// Whether a list stands inside a list of `self`, at any depth.
    pub open spec fn nests_a_list(self) -> bool
        decreases self,
    {
        match self {
            PrimitiveView::Vec(items) => exists|i: int|
                0 <= i < items.len() && (#[trigger] items[i] is Vec || items[i].nests_a_list()),
            _ => false,
        }
    }

    /// Looking one level down is enough: a value is invalid exactly when a
    /// list stands inside one of its lists, however deep.
    pub proof fn law_invalid_at_any_depth(self)
        ensures
            self.is_invalid() == self.nests_a_list(),
    {
        if self.nests_a_list() {
            let i = choose|i: int|
                0 <= i < self->Vec_0.len() && (#[trigger] self->Vec_0[i] is Vec
                    || self->Vec_0[i].nests_a_list());
            assert(self->Vec_0[i] is Vec);
        }
    }
}

impl View for Primitive {
    type V = PrimitiveView;

    open spec fn view(&self) -> PrimitiveView {
        self.model()
    }
}

/// The views of `items`, in order.
pub open spec fn views_of(items: Seq<Primitive>) -> Seq<PrimitiveView> {
    Seq::new(items.len(), |i: int| items[i]@)
}

/// The error of a typed read that expected `target`.
pub fn parse_error(target: String) -> (error: ContractError)
    ensures
        error.is_type_mismatch(target@),
{
    let msg = String::from_str("Primitive is not a ").concat(target.as_str());
    ContractError::TypeMismatch { target_type: target, msg }
}

impl Primitive {
    /// The value that `self` stands for, item by item.
    pub open spec fn model(self) -> PrimitiveView
        decreases self,
    {
        match self {
            Primitive::Uint128(n) => PrimitiveView::Uint128(n),
            Primitive::String(s) => PrimitiveView::String(s@),
            Primitive::Bool(b) => PrimitiveView::Bool(b),
            Primitive::Vec(items) => PrimitiveView::Vec(
                Seq::new(
                    items@.len(),
                    |i: int|
                        if 0 <= i < items@.len() {
                            items@[i].model()
                        } else {
                            PrimitiveView::Bool(false)
                        },
                ),
            ),
        }
    }

    /// The view keeps the variant.
    pub proof fn lemma_view_variant(self)
        ensures
            self is Uint128 <==> self@ is Uint128,
            self is String <==> self@ is String,
            self is Bool <==> self@ is Bool,
            self is Vec <==> self@ is Vec,
    {
    }

    /// The view of a list is the list of its items' views.
    pub proof fn lemma_view_items(self)
        requires
            self is Vec,
        ensures
            self@ == PrimitiveView::Vec(views_of(self->Vec_0@)),
    {
        assert(self@->Vec_0 =~= views_of(self->Vec_0@));
    }

    /// Whether `self` is a list that holds a list.
    pub fn is_invalid(&self) -> (invalid: bool)
        ensures
            invalid == self@.is_invalid(),
    {
        match self {
            Primitive::Vec(items) => {
                proof {
                    self.lemma_view_items();
                }
                let mut i: usize = 0;
                while i < items.len()
                    invariant
                        i <= items.len(),
                        self@ == PrimitiveView::Vec(views_of(items@)),
                        forall|j: int| 0 <= j < i ==> !(#[trigger] views_of(items@)[j] is Vec),
                    decreases items.len() - i,
                {
                    proof {
                        items@[i as int].lemma_view_variant();
                    }
                    if let Primitive::Vec(_) = &items[i] {
                        assert(views_of(items@)[i as int] is Vec);
                        return true;
                    }
                    i += 1;
                }
                false
            },
            _ => false,
        }
    }

    /// The integer, where `self` is one.
    pub fn try_get_uint128(&self) -> (res: Result<u128, ContractError>)
        ensures
            match self@ {
                PrimitiveView::Uint128(n) => res == Ok::<u128, ContractError>(n),
                _ => res is Err && res->Err_0.is_type_mismatch("Uint128"@),
            },
    {
        match self {
            Primitive::Uint128(value) => Ok(*value),
            _ => Err(parse_error(String::from_str("Uint128"))),
        }
    }

    /// A copy of the text, where `self` is one.
    pub fn try_get_string(&self) -> (res: Result<String, ContractError>)
        ensures
            match self@ {
                PrimitiveView::String(s) => res is Ok && res->Ok_0@ == s,
                _ => res is Err && res->Err_0.is_type_mismatch("String"@),
            },
    {
        match self {
            Primitive::String(value) => Ok(value.clone()),
            _ => Err(parse_error(String::from_str("String"))),
        }
    }

    /// The boolean, where `self` is one.
    pub fn try_get_bool(&self) -> (res: Result<bool, ContractError>)
        ensures
            match self@ {
                PrimitiveView::Bool(b) => res == Ok::<bool, ContractError>(b),
                _ => res is Err && res->Err_0.is_type_mismatch("bool"@),
            },
    {
        match self {
            Primitive::Bool(value) => Ok(*value),
            _ => Err(parse_error(String::from_str("bool"))),
        }
    }

    /// A copy of the items, where `self` is a list.
    pub fn try_get_vec(&self) -> (res: Result<Vec<Primitive>, ContractError>)
        ensures
            match self@ {
                PrimitiveView::Vec(items) => res is Ok && views_of(res->Ok_0@) == items,
                _ => res is Err && res->Err_0.is_type_mismatch("Vec"@),
            },
    {
        match self {
            Primitive::Vec(vector) => {
                proof {
                    self.lemma_view_items();
                }
                Ok(clone_items(vector))
            },
            _ => Err(parse_error(String::from_str("Vec"))),
        }
    }
}

/// A copy of each item, in order.
fn clone_items(items: &Vec<Primitive>) -> (copy: Vec<Primitive>)
    ensures
        views_of(copy@) == views_of(items@),
    decreases items,
{
    let mut copy: Vec<Primitive> = Vec::new();
    let mut i: usize = 0;
    while i < items.len()
        invariant
            i <= items.len(),
            copy@.len() == i,
            forall|j: int| 0 <= j < i ==> #[trigger] copy@[j]@ == items@[j]@,
        decreases items.len() - i,
    {
        let item = items[i].clone();
        copy.push(item);
        i += 1;
    }
    assert(views_of(copy@) =~= views_of(items@));
    copy
}

impl Clone for Primitive {
    fn clone(&self) -> (copy: Primitive)
        ensures
            copy@ == self@,
        decreases self,
    {
        match self {
            Primitive::Uint128(value) => Primitive::Uint128(*value),
            Primitive::String(value) => Primitive::String(value.clone()),
            Primitive::Bool(value) => Primitive::Bool(*value),
            Primitive::Vec(items) => {
                let copy = Primitive::Vec(clone_items(items));
                proof {
                    self.lemma_view_items();
                    copy.lemma_view_items();
                }
                copy
            },
        }
    }
}

} // verus!
