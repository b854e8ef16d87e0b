//! The text of a value, as it is reported when the value is stored: the
//! tag of the variant, then the payload in round brackets.

use vstd::prelude::*;
use vstd::string::StringExecFns;
use crate::state::Primitive;
use crate::state::PrimitiveView;
use crate::state::views_of;

verus! {

/// The quoted and escaped form of a text, as `{:?}` writes a `str`.
pub uninterp spec fn debug_text(text: Seq<char>) -> Seq<char>;

/// `format!("{:?}", text)` on a `str`: the text between double quotes,
/// with the escapes of `str`'s `Debug`. The result depends on the text
/// alone; the contract gives it its name and says nothing more of it.
#[verifier::external_body]
fn debug_string(text: &str) -> (quoted: String)
    ensures
        quoted@ == debug_text(text@),
{
    format!("{:?}", text)
}

/// The decimal digit for `d`.
pub open spec fn digit(d: nat) -> char {
    if d == 0 {
        '0'
    } else if d == 1 {
        '1'
    } else if d == 2 {
        '2'
    } else if d == 3 {
        '3'
    } else if d == 4 {
        '4'
    } else if d == 5 {
        '5'
    } else if d == 6 {
        '6'
    } else if d == 7 {
        '7'
    } else if d == 8 {
        '8'
    } else {
        '9'
    }
}

/// The decimal digits of `n`, without leading zeros.
pub open spec fn decimal(n: nat) -> Seq<char>
    decreases n,
{
    if n < 10 {
        seq![digit(n)]
    } else {
        decimal(n / 10).push(digit(n % 10))
    }
}

/// `tag`, then `payload` in round brackets.
pub open spec fn tagged(tag: Seq<char>, payload: Seq<char>) -> Seq<char> {
    tag + "("@ + payload + ")"@
}

/// The parts, with a comma and a space between two neighbours.
pub open spec fn joined(parts: Seq<Seq<char>>) -> Seq<char>
    decreases parts.len(),
{
    if parts.len() == 0 {
        Seq::empty()
    } else if parts.len() == 1 {
        parts[0]
    } else {
        joined(parts.drop_last()) + ", "@ + parts.last()
    }
}

impl PrimitiveView {
    /// The text of a value. An integer is written as the unsigned
    /// magnitude it wraps, `Uint128(n)` in decimal; a text is quoted; a list
    /// stands in square brackets.
    pub open spec fn rendering(self) -> Seq<char>
        decreases self,
    {
        match self {
            PrimitiveView::Uint128(n) => tagged("Uint128"@, tagged("Uint128"@, decimal(n as nat))),
            PrimitiveView::String(text) => tagged("String"@, debug_text(text)),
            PrimitiveView::Bool(b) => tagged(
                "Bool"@,
                if b {
                    "true"@
                } else {
                    "false"@
                },
            ),
            PrimitiveView::Vec(items) => tagged("Vec"@, "["@ + joined(renderings_of(items)) + "]"@),
        }
    }
}

/// The texts of `items`, in order.
pub open spec fn renderings_of(items: Seq<PrimitiveView>) -> Seq<Seq<char>>
    decreases items,
{
    Seq::new(
        items.len(),
        |i: int|
            if 0 <= i < items.len() {
                items[i].rendering()
            } else {
                Seq::empty()
            },
    )
}

/// Joining one part more: the separator comes before every part but the
/// first.
pub proof fn lemma_joined_take(parts: Seq<Seq<char>>, i: int)
    requires
        0 <= i < parts.len(),
    ensures
        joined(parts.take(i + 1)) == if i == 0 {
            parts[0]
        } else {
            joined(parts.take(i)) + ", "@ + parts[i]
        },
{
    assert(parts.take(i + 1).drop_last() =~= parts.take(i));
}

/// The one-character text of a digit.
fn digit_str(d: u128) -> (text: &'static str)
    requires
        d < 10,
    ensures
        text@ == seq![digit(d as nat)],
{
    proof {
        reveal_strlit("0");
        reveal_strlit("1");
        reveal_strlit("2");
        reveal_strlit("3");
        reveal_strlit("4");
        reveal_strlit("5");
        reveal_strlit("6");
        reveal_strlit("7");
        reveal_strlit("8");
        reveal_strlit("9");
    }
    let text = if d == 0 {
        "0"
    } else if d == 1 {
        "1"
    } else if d == 2 {
        "2"
    } else if d == 3 {
        "3"
    } else if d == 4 {
        "4"
    } else if d == 5 {
        "5"
    } else if d == 6 {
        "6"
    } else if d == 7 {
        "7"
    } else if d == 8 {
        "8"
    } else {
        "9"
    };
    assert(text@ =~= seq![digit(d as nat)]);
    text
}

/// `n` in decimal.
pub fn decimal_string(n: u128) -> (text: String)
    ensures
        text@ == decimal(n as nat),
    decreases n,
{
    if n < 10 {
        String::from_str(digit_str(n))
    } else {
        let text = decimal_string(n / 10).concat(digit_str(n % 10));
        assert(text@ =~= decimal(n as nat));
        text
    }
}

/// `tag`, then `payload` in round brackets.
pub fn tagged_string(tag: &str, payload: &str) -> (text: String)
    ensures
        text@ == tagged(tag@, payload@),
{
    String::from_str(tag).concat("(").concat(payload).concat(")")
}

/// The texts of the items of a list, joined.
fn render_items(items: &Vec<Primitive>) -> (text: String)
    ensures
        text@ == joined(renderings_of(views_of(items@))),
    decreases items,
{
    let ghost parts = renderings_of(views_of(items@));
    let mut text = String::new();
    let mut i: usize = 0;
    assert(parts.take(0) =~= Seq::<Seq<char>>::empty());
    while i < items.len()
        invariant
            i <= items.len(),
            parts == renderings_of(views_of(items@)),
            parts.len() == items@.len(),
            text@ == joined(parts.take(i as int)),
        decreases items.len() - i,
    {
        proof {
            lemma_joined_take(parts, i as int);
        }
        if i > 0 {
            text.append(", ");
        }
        let item = items[i].render();
        text.append(item.as_str());
        i += 1;
    }
    assert(parts.take(i as int) =~= parts);
    text
}

impl Primitive {
    /// The text of the value: its tag and its payload.
    pub fn render(&self) -> (text: String)
        ensures
            text@ == self@.rendering(),
        decreases self,
    {
        match self {
            Primitive::Uint128(value) => {
                let inner = tagged_string("Uint128", decimal_string(*value).as_str());
                tagged_string("Uint128", inner.as_str())
            },
            Primitive::String(value) => tagged_string("String", debug_string(value.as_str()).as_str()),
            Primitive::Bool(value) => tagged_string(
                "Bool",
                if *value {
                    "true"
                } else {
                    "false"
                },
            ),
            Primitive::Vec(items) => {
                proof {
                    self.lemma_view_items();
                }
                let list = String::from_str("[").concat(render_items(items).as_str()).concat("]");
                tagged_string("Vec", list.as_str())
            },
        }
    }
}

} // verus!
