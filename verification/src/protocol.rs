//! The control channel to the helper: the arguments it is started with and
//! the update lines written to its standard input.

use crate::decimal::{decimal_string, decimal_text, lemma_decimal_text_digits};
use crate::json::{
    json_object_text, object_fields, object_insert, object_new, object_text, FieldValue, WireValue,
};
use vstd::prelude::*;
use vstd::string::*;

verus! {

/// What the helper is started with. The color is required.
#[derive(Clone, Debug, PartialEq, Eq)]
pub struct StartRequest {
    pub color: String,
    pub width: Option<u32>,
    pub blur: Option<u32>,
}

/// A live update. A field that is absent is left as it is by the helper, so
/// it must not travel.
#[derive(Clone, Debug, PartialEq, Eq)]
pub struct UpdatePayload {
    pub color: Option<String>,
    pub width: Option<u32>,
    pub blur: Option<u32>,
}

/// The `--name value` pair of an optional numeric argument.
pub open spec fn numeric_argument(name: Seq<char>, value: Option<u32>) -> Seq<Seq<char>> {
    match value {
        Some(n) => seq![name, decimal_text(n as nat)],
        None => Seq::empty(),
    }
}

/// The command line of the helper, without the program itself.
pub open spec fn start_argument_texts(
    color: Seq<char>,
    width: Option<u32>,
    blur: Option<u32>,
) -> Seq<Seq<char>> {
    seq!["--color"@, color] + numeric_argument("--width"@, width) + numeric_argument(
        "--blur"@,
        blur,
    )
}

impl StartRequest {
    /// The arguments as a sequence of texts.
    pub open spec fn argument_texts(&self) -> Seq<Seq<char>> {
        start_argument_texts(self.color@, self.width, self.blur)
    }

    /// Builds the helper's command line: `--color` and the color, then
    /// `--width` and `--blur` with their values where they are given.
    pub fn arguments(&self) -> (args: Vec<String>)
        ensures
            args.deep_view() == self.argument_texts(),
    {
        let mut args: Vec<String> = Vec::new();
        args.push(String::from_str("--color"));
        args.push(self.color.clone());
        assert(args.deep_view() =~= seq!["--color"@, self.color@]);
        push_numeric_argument(&mut args, "--width", self.width);
        push_numeric_argument(&mut args, "--blur", self.blur);
        args
    }
}

/// The shape of the command line: the color comes first and is always
/// there; width and blur follow in this order, each only if given, each as
/// its name and an unsigned decimal numeral.
pub proof fn lemma_start_arguments_shape(color: Seq<char>, width: Option<u32>, blur: Option<u32>)
    ensures
        ({
            let args = start_argument_texts(color, width, blur);
            let after_width: int = if width is Some {
                4
            } else {
                2
            };
            &&& args.len() == after_width + (if blur is Some {
                2int
            } else {
                0int
            })
            &&& args[0] == "--color"@
            &&& args[1] == color
            &&& width is Some ==> args[2] == "--width"@ && args[3] == decimal_text(
                width->0 as nat,
            )
            &&& blur is Some ==> args[after_width] == "--blur"@ && args[after_width + 1]
                == decimal_text(blur->0 as nat)
            &&& forall|n: u32, i: int|
                0 <= i < decimal_text(n as nat).len() ==> '0' <= #[trigger] decimal_text(
                    n as nat,
                )[i] <= '9'
        }),
{
    assert forall|n: u32, i: int| 0 <= i < decimal_text(n as nat).len() implies '0'
        <= #[trigger] decimal_text(n as nat)[i] <= '9' by {
        lemma_decimal_text_digits(n as nat);
    }
}

fn push_numeric_argument(args: &mut Vec<String>, name: &str, value: Option<u32>)
    ensures
        final(args).deep_view() == old(args).deep_view() + numeric_argument(name@, value),
{
    match value {
        Some(n) => {
            args.push(String::from_str(name));
            args.push(decimal_string(n));
            assert(args.deep_view() =~= old(args).deep_view() + numeric_argument(name@, value));
        },
        None => {
            assert(args.deep_view() =~= old(args).deep_view() + numeric_argument(name@, value));
        },
    }
}

/// The entries of an update object: one per field that is present, under
/// the field's name, and no other.
pub open spec fn update_fields(
    color: Option<Seq<char>>,
    width: Option<u32>,
    blur: Option<u32>,
) -> Map<Seq<char>, WireValue> {
    Map::new(
        |key: Seq<char>|
            (key == "color"@ && color is Some) || (key == "width"@ && width is Some) || (key
                == "blur"@ && blur is Some),
        |key: Seq<char>|
            if key == "color"@ {
                WireValue::Text(color->0)
            } else if key == "width"@ {
                WireValue::Number(width->0)
            } else {
                WireValue::Number(blur->0)
            },
    )
}

/// The three field names differ from one another.
proof fn lemma_field_names_differ()
    ensures
        "color"@ != "width"@,
        "color"@ != "blur"@,
        "width"@ != "blur"@,
{
    reveal_strlit("color");
    reveal_strlit("width");
    reveal_strlit("blur");
    assert("color"@[0] != "width"@[0]);
    assert("color"@.len() != "blur"@.len());
    assert("width"@.len() != "blur"@.len());
}

/// A line of the channel: the text and the line feed that ends it.
pub open spec fn framed(text: Seq<char>) -> Seq<char> {
    text.push('\n')
}

/// Exactly one line: the text ends in a line feed and holds no other.
pub open spec fn is_one_line(line: Seq<char>) -> bool {
    &&& line.len() > 0
    &&& line.last() == '\n'
    &&& !line.drop_last().contains('\n')
}

/// Ends a message with a line feed.
pub fn frame_line(text: String) -> (line: String)
    ensures
        line@ == framed(text@),
        !text@.contains('\n') ==> is_one_line(line@),
{
    proof {
        reveal_strlit("\n");
    }
    let line = text.concat("\n");
    assert(line@ =~= framed(text@));
    assert(line@.drop_last() =~= text@);
    line
}

impl UpdatePayload {
    /// The entries that this update puts on the wire.
    pub open spec fn fields(&self) -> Map<Seq<char>, WireValue> {
        update_fields(
            match self.color {
                Some(c) => Some(c@),
                None => None,
            },
            self.width,
            self.blur,
        )
    }

    /// The update as one line: a JSON object that holds the fields that are
    /// present and no other, ended by a line feed.
    pub fn encode(&self) -> (line: String)
        ensures
            line@ == framed(json_object_text(self.fields())),
            is_one_line(line@),
    {
        let mut object = object_new();
        match &self.color {
            Some(c) => {
                object_insert(&mut object, "color", FieldValue::Text(c.clone()));
            },
            None => {},
        }
        match self.width {
            Some(w) => {
                object_insert(&mut object, "width", FieldValue::Number(w));
            },
            None => {},
        }
        match self.blur {
            Some(b) => {
                object_insert(&mut object, "blur", FieldValue::Number(b));
            },
            None => {},
        }
        proof {
            lemma_field_names_differ();
            assert(object_fields(object) =~= self.fields());
        }
        frame_line(object_text(object))
    }
}

/// An update carries the fields that are present and no other: a field is
/// among the entries if and only if it was given, with the value it was
/// given, and there are no entries besides. So a field that is absent
/// cannot change at the helper. An update of the color alone has the color
/// as its single entry.
pub proof fn lemma_update_carries_present_fields(
    color: Option<Seq<char>>,
    width: Option<u32>,
    blur: Option<u32>,
)
    ensures
        update_fields(color, width, blur).dom().contains("color"@) <==> color is Some,
        update_fields(color, width, blur).dom().contains("width"@) <==> width is Some,
        update_fields(color, width, blur).dom().contains("blur"@) <==> blur is Some,
        forall|key: Seq<char>| #[trigger]
            update_fields(color, width, blur).dom().contains(key) ==> key == "color"@ || key
                == "width"@ || key == "blur"@,
        color is Some ==> update_fields(color, width, blur)["color"@] == WireValue::Text(color->0),
        width is Some ==> update_fields(color, width, blur)["width"@] == WireValue::Number(
            width->0,
        ),
        blur is Some ==> update_fields(color, width, blur)["blur"@] == WireValue::Number(blur->0),
        color is Some && width is None && blur is None ==> update_fields(color, width, blur)
            == Map::<Seq<char>, WireValue>::empty().insert("color"@, WireValue::Text(color->0)),
        color is None && width is None && blur is None ==> update_fields(color, width, blur)
            == Map::<Seq<char>, WireValue>::empty(),
{
    lemma_field_names_differ();
    if color is Some && width is None && blur is None {
        assert(update_fields(color, width, blur) =~= Map::<Seq<char>, WireValue>::empty().insert(
            "color"@,
            WireValue::Text(color->0),
        ));
    }
    if color is None && width is None && blur is None {
        assert(update_fields(color, width, blur) =~= Map::<Seq<char>, WireValue>::empty());
    }
}

} // verus!
