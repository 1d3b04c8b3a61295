//! The option descriptors an interface declares to its host, each with its
//! textual sentence form: a closed set of typed variants sharing one
//! formatting contract.

use vstd::prelude::*;

use crate::numfmt::{bool_text, bool_to_str, dec_text, i64_to_string, int_dec_text, u64_to_string};

verus! {

use vstd::string::StringExecFns;

/// The leading fields every option sentence starts with.
pub open spec fn arg_header_text(number: u8, call: Seq<char>, display: Seq<char>) -> Seq<char> {
    "arg {number="@ + dec_text(number as nat) + "}{call=--"@ + call + "}{display="@ + display
        + "}"@
}

fn arg_header(number: u8, call: &str, display: &str) -> (r: String)
    ensures
        r@ == arg_header_text(number, call@, display@),
{
    let mut s: String = "arg {number=".to_owned();
    let num = u64_to_string(number as u64);
    s.append(num.as_str());
    s.append("}{call=--");
    s.append(call);
    s.append("}{display=");
    s.append(display);
    s.append("}");
    proof {
        assert(s@ =~= arg_header_text(number, call@, display@));
    }
    s
}

/// A braced field that appears only when its value is present.
pub open spec fn opt_text(tag: Seq<char>, o: Option<String>) -> Seq<char> {
    match o {
        Option::Some(v) => "{"@ + tag + "="@ + v@ + "}"@,
        Option::None => Seq::empty(),
    }
}

fn append_opt(s: &mut String, tag: &str, o: &Option<String>)
    ensures
        final(s)@ == old(s)@ + opt_text(tag@, *o),
{
    match o {
        Option::Some(v) => {
            let ghost s0 = s@;
            s.append("{");
            s.append(tag);
            s.append("=");
            s.append(v.as_str());
            s.append("}");
            proof {
                assert(s@ =~= s0 + opt_text(tag@, *o));
            }
        },
        Option::None => {
            proof {
                assert(s@ + Seq::<char>::empty() =~= s@);
            }
        },
    }
}

/// The bounds of an inclusive numeric range option, as text "{range=a,b}"
/// when present.
pub open spec fn range_text(bounds: Option<(Seq<char>, Seq<char>)>) -> Seq<char> {
    match bounds {
        Option::Some((a, b)) => "{range="@ + a + ","@ + b + "}"@,
        Option::None => Seq::empty(),
    }
}

fn append_range(s: &mut String, a: &String, b: &String)
    ensures
        final(s)@ == old(s)@ + range_text(Some((a@, b@))),
{
    let ghost s0 = s@;
    s.append("{range=");
    s.append(a.as_str());
    s.append(",");
    s.append(b.as_str());
    s.append("}");
    proof {
        assert(s@ =~= s0 + range_text(Some((a@, b@))));
    }
}

/// One selectable option of a selector, radio or edit-selector descriptor.
#[derive(Debug)]
pub struct ConfigOptionValue {
    /// The value handed back on the command line when chosen.
    pub value: String,
    /// The label the host shows.
    pub display: String,
    /// Whether this option starts out selected.
    pub default: bool,
}

/// The sentence declaring one selectable option of argument `number`.
pub open spec fn option_value_text(v: ConfigOptionValue, number: u8) -> Seq<char> {
    "value {arg="@ + dec_text(number as nat) + "}{value="@ + v.value@ + "}{display="@ + v.display@
        + "}{default="@ + bool_text(v.default) + "}"@ + "\n"@
}

/// The sentences declaring the selectable options from index `i` on.
pub open spec fn option_values_text_from(vs: Seq<ConfigOptionValue>, number: u8, i: int) -> Seq<
    char,
>
    decreases vs.len() - i,
{
    if i < 0 || i >= vs.len() {
        Seq::empty()
    } else {
        option_value_text(vs[i], number) + option_values_text_from(vs, number, i + 1)
    }
}

/// The sentences declaring all the selectable options.
pub open spec fn option_values_text(vs: Seq<ConfigOptionValue>, number: u8) -> Seq<char> {
    option_values_text_from(vs, number, 0)
}

impl ConfigOptionValue {
    /// The sentence declaring this option for argument `number`.
    pub fn format_value(&self, number: u8) -> (r: String)
        ensures
            r@ == option_value_text(*self, number),
    {
        let mut s: String = "value {arg=".to_owned();
        let num = u64_to_string(number as u64);
        s.append(num.as_str());
        s.append("}{value=");
        s.append(self.value.as_str());
        s.append("}{display=");
        s.append(self.display.as_str());
        s.append("}{default=");
        s.append(bool_to_str(self.default));
        s.append("}");
        s.append("\n");
        proof {
            assert(s@ =~= option_value_text(*self, number));
        }
        s
    }

    /// Writes this option's sentence to the process's standard output.
    pub fn print_config(&self, number: u8) {
        let line = self.format_value(number);
        write_stdout(line.as_str());
    }
}

/// Relies on std::io::Stdout::write_all to hand the formatted sentence to
/// the host; a write failure is ignored, as the host is about to read or
/// drop the pipe either way.
#[verifier::external_body]
fn write_stdout(s: &str) {
    let _ = std::io::Write::write_all(&mut std::io::stdout(), s.as_bytes());
}

fn append_option_values(s: &mut String, vs: &Vec<ConfigOptionValue>, number: u8)
    ensures
        final(s)@ == old(s)@ + option_values_text(vs@, number),
{
    let mut i: usize = 0;
    while i < vs.len()
        invariant
            i <= vs@.len(),
            old(s)@ + option_values_text(vs@, number) == s@ + option_values_text_from(
                vs@,
                number,
                i as int,
            ),
        decreases vs@.len() - i,
    {
        let ghost s0 = s@;
        let line = vs[i].format_value(number);
        s.append(line.as_str());
        proof {
            assert(option_values_text_from(vs@, number, i as int) == option_value_text(
                vs@[i as int],
                number,
            ) + option_values_text_from(vs@, number, i + 1));
            assert(s0 + (option_value_text(vs@[i as int], number) + option_values_text_from(
                vs@,
                number,
                i + 1,
            )) =~= s@ + option_values_text_from(vs@, number, i + 1));
        }
        i = i + 1;
    }
    proof {
        assert(s@ + option_values_text_from(vs@, number, i as int) =~= s@);
    }
}

/// Lets the user set a true/false value.
#[derive(Debug)]
pub struct BooleanConfig {
    pub config_number: u8,
    pub call: String,
    pub display: String,
    pub tooltip: Option<String>,
    pub default_value: bool,
}

/// The sentence declaring a boolean option.
pub open spec fn boolean_config_text(c: BooleanConfig) -> Seq<char> {
    arg_header_text(c.config_number, c.call@, c.display@) + opt_text("tooltip"@, c.tooltip) + (
    if c.default_value {
        "{default=true}"@
    } else {
        Seq::<char>::empty()
    }) + "{type=boolean}"@ + "\n"@
}

impl BooleanConfig {
    /// This option's declaration sentence.
    pub fn format_config(&self) -> (r: String)
        ensures
            r@ == boolean_config_text(*self),
    {
        let mut s = arg_header(self.config_number, self.call.as_str(), self.display.as_str());
        append_opt(&mut s, "tooltip", &self.tooltip);
        if self.default_value {
            s.append("{default=true}");
        }
        s.append("{type=boolean}");
        s.append("\n");
        proof {
            assert(s@ =~= boolean_config_text(*self));
        }
        s
    }
}

/// Lets the user set a true/false value that reaches the command line only
/// when true.
#[derive(Debug)]
pub struct BoolFlagConfig {
    pub config_number: u8,
    pub call: String,
    pub display: String,
    pub tooltip: Option<String>,
    pub default_value: bool,
}

/// The sentence declaring a boolean-flag option.
pub open spec fn bool_flag_config_text(c: BoolFlagConfig) -> Seq<char> {
    arg_header_text(c.config_number, c.call@, c.display@) + opt_text("tooltip"@, c.tooltip) + (
    if c.default_value {
        "{default=true}"@
    } else {
        Seq::<char>::empty()
    }) + "{type=boolflag}"@ + "\n"@
}

impl BoolFlagConfig {
    /// This option's declaration sentence.
    pub fn format_config(&self) -> (r: String)
        ensures
            r@ == bool_flag_config_text(*self),
    {
        let mut s = arg_header(self.config_number, self.call.as_str(), self.display.as_str());
        append_opt(&mut s, "tooltip", &self.tooltip);
        if self.default_value {
            s.append("{default=true}");
        }
        s.append("{type=boolflag}");
        s.append("\n");
        proof {
            assert(s@ =~= bool_flag_config_text(*self));
        }
        s
    }
}

/// A date/time value shown as a timestamp editor.
#[derive(Debug)]
pub struct TimestampConfig {
    pub config_number: u8,
    pub call: String,
    pub display: String,
    pub tooltip: Option<String>,
    pub group: String,
}

/// The sentence declaring a timestamp option.
pub open spec fn timestamp_config_text(c: TimestampConfig) -> Seq<char> {
    arg_header_text(c.config_number, c.call@, c.display@) + opt_text("tooltip"@, c.tooltip)
        + "{group="@ + c.group@ + "}"@ + "{type=timestamp}"@ + "\n"@
}

impl TimestampConfig {
    /// This option's declaration sentence.
    pub fn format_config(&self) -> (r: String)
        ensures
            r@ == timestamp_config_text(*self),
    {
        let mut s = arg_header(self.config_number, self.call.as_str(), self.display.as_str());
        append_opt(&mut s, "tooltip", &self.tooltip);
        s.append("{group=");
        s.append(self.group.as_str());
        s.append("}");
        s.append("{type=timestamp}");
        s.append("\n");
        proof {
            assert(s@ =~= timestamp_config_text(*self));
        }
        s
    }
}

/// Lets the user pick a file path.
#[derive(Debug)]
pub struct FileSelectConfig {
    pub config_number: u8,
    pub call: String,
    pub display: String,
    pub tooltip: Option<String>,
    pub group: Option<String>,
    /// When true the host offers an open-file dialog, otherwise a save-file
    /// one.
    pub must_exist: bool,
}

/// The sentence declaring a file-select option.
pub open spec fn file_select_config_text(c: FileSelectConfig) -> Seq<char> {
    arg_header_text(c.config_number, c.call@, c.display@) + opt_text("tooltip"@, c.tooltip)
        + opt_text("group"@, c.group) + "{type=fileselect}"@ + "{mustexist="@ + bool_text(
        c.must_exist,
    ) + "}"@ + "\n"@
}

impl FileSelectConfig {
    /// This option's declaration sentence.
    pub fn format_config(&self) -> (r: String)
        ensures
            r@ == file_select_config_text(*self),
    {
        let mut s = arg_header(self.config_number, self.call.as_str(), self.display.as_str());
        append_opt(&mut s, "tooltip", &self.tooltip);
        append_opt(&mut s, "group", &self.group);
        s.append("{type=fileselect}");
        s.append("{mustexist=");
        s.append(bool_to_str(self.must_exist));
        s.append("}");
        s.append("\n");
        proof {
            assert(s@ =~= file_select_config_text(*self));
        }
        s
    }
}


/// Lets the user enter a text value, optionally validated by a regular
/// expression the host applies.
#[derive(Debug)]
pub struct StringConfig {
    pub config_number: u8,
    pub call: String,
    pub display: String,
    pub tooltip: Option<String>,
    pub placeholder: Option<String>,
    pub required: bool,
    /// A regular expression the host checks the input against, beyond the
    /// normal type and range checks.
    pub validation: Option<String>,
    pub save: bool,
}

/// The sentence declaring a string option.
pub open spec fn string_config_text(c: StringConfig) -> Seq<char> {
    arg_header_text(c.config_number, c.call@, c.display@) + opt_text("tooltip"@, c.tooltip)
        + opt_text("placeholder"@, c.placeholder) + (if c.required {
        "{required=true}"@
    } else {
        Seq::<char>::empty()
    }) + opt_text("validation"@, c.validation) + (if c.save {
        "{save=true}"@
    } else {
        Seq::<char>::empty()
    }) + "{type=string}"@ + "\n"@
}

impl StringConfig {
    /// This option's declaration sentence.
    pub fn format_config(&self) -> (r: String)
        ensures
            r@ == string_config_text(*self),
    {
        let mut s = arg_header(self.config_number, self.call.as_str(), self.display.as_str());
        append_opt(&mut s, "tooltip", &self.tooltip);
        append_opt(&mut s, "placeholder", &self.placeholder);
        if self.required {
            s.append("{required=true}");
        }
        append_opt(&mut s, "validation", &self.validation);
        if self.save {
            s.append("{save=true}");
        }
        s.append("{type=string}");
        s.append("\n");
        proof {
            assert(s@ =~= string_config_text(*self));
        }
        s
    }
}

/// Lets the user enter a masked string, never saved with other capture
/// settings.
#[derive(Debug)]
pub struct PasswordConfig {
    pub config_number: u8,
    pub call: String,
    pub display: String,
    pub tooltip: Option<String>,
    pub placeholder: Option<String>,
    pub required: bool,
    pub validation: Option<String>,
}

/// The sentence declaring a password option.
pub open spec fn password_config_text(c: PasswordConfig) -> Seq<char> {
    arg_header_text(c.config_number, c.call@, c.display@) + opt_text("tooltip"@, c.tooltip)
        + opt_text("placeholder"@, c.placeholder) + (if c.required {
        "{required=true}"@
    } else {
        Seq::<char>::empty()
    }) + opt_text("validation"@, c.validation) + "{type=password}"@ + "\n"@
}

impl PasswordConfig {
    /// This option's declaration sentence.
    pub fn format_config(&self) -> (r: String)
        ensures
            r@ == password_config_text(*self),
    {
        let mut s = arg_header(self.config_number, self.call.as_str(), self.display.as_str());
        append_opt(&mut s, "tooltip", &self.tooltip);
        append_opt(&mut s, "placeholder", &self.placeholder);
        if self.required {
            s.append("{required=true}");
        }
        append_opt(&mut s, "validation", &self.validation);
        s.append("{type=password}");
        s.append("\n");
        proof {
            assert(s@ =~= password_config_text(*self));
        }
        s
    }
}

/// Lets the user enter a 32-bit signed number, with an optional inclusive
/// range.
#[derive(Debug)]
pub struct IntegerConfig {
    pub config_number: u8,
    pub call: String,
    pub display: String,
    pub tooltip: Option<String>,
    /// The inclusive bounds the host enforces, when present.
    pub range: Option<(i32, i32)>,
    pub default_value: i32,
}

/// The sentence declaring an integer option.
pub open spec fn integer_config_text(c: IntegerConfig) -> Seq<char> {
    arg_header_text(c.config_number, c.call@, c.display@) + opt_text("tooltip"@, c.tooltip)
        + range_text(
        match c.range {
            Option::Some((a, b)) => Some((int_dec_text(a as int), int_dec_text(b as int))),
            Option::None => None,
        },
    ) + "{default="@ + int_dec_text(c.default_value as int) + "}"@ + "{type=integer}"@ + "\n"@
}

impl IntegerConfig {
    /// This option's declaration sentence.
    pub fn format_config(&self) -> (r: String)
        ensures
            r@ == integer_config_text(*self),
    {
        let mut s = arg_header(self.config_number, self.call.as_str(), self.display.as_str());
        append_opt(&mut s, "tooltip", &self.tooltip);
        match self.range {
            Option::Some((a, b)) => {
                let at = i64_to_string(a as i64);
                let bt = i64_to_string(b as i64);
                append_range(&mut s, &at, &bt);
            },
            Option::None => {},
        }
        s.append("{default=");
        let dv = i64_to_string(self.default_value as i64);
        s.append(dv.as_str());
        s.append("}");
        s.append("{type=integer}");
        s.append("\n");
        proof {
            assert(s@ =~= integer_config_text(*self));
        }
        s
    }
}

/// Lets the user enter a 32-bit unsigned number, with an optional inclusive
/// range.
#[derive(Debug)]
pub struct UnsignedConfig {
    pub config_number: u8,
    pub call: String,
    pub display: String,
    pub tooltip: Option<String>,
    pub range: Option<(u32, u32)>,
    pub default_value: u32,
}

/// The sentence declaring an unsigned option.
pub open spec fn unsigned_config_text(c: UnsignedConfig) -> Seq<char> {
    arg_header_text(c.config_number, c.call@, c.display@) + opt_text("tooltip"@, c.tooltip)
        + range_text(
        match c.range {
            Option::Some((a, b)) => Some((dec_text(a as nat), dec_text(b as nat))),
            Option::None => None,
        },
    ) + "{default="@ + dec_text(c.default_value as nat) + "}"@ + "{type=unsigned}"@ + "\n"@
}

impl UnsignedConfig {
    /// This option's declaration sentence.
    pub fn format_config(&self) -> (r: String)
        ensures
            r@ == unsigned_config_text(*self),
    {
        let mut s = arg_header(self.config_number, self.call.as_str(), self.display.as_str());
        append_opt(&mut s, "tooltip", &self.tooltip);
        match self.range {
            Option::Some((a, b)) => {
                let at = u64_to_string(a as u64);
                let bt = u64_to_string(b as u64);
                append_range(&mut s, &at, &bt);
            },
            Option::None => {},
        }
        s.append("{default=");
        let dv = u64_to_string(self.default_value as u64);
        s.append(dv.as_str());
        s.append("}");
        s.append("{type=unsigned}");
        s.append("\n");
        proof {
            assert(s@ =~= unsigned_config_text(*self));
        }
        s
    }
}

/// Lets the user enter a 64-bit signed number, with an optional inclusive
/// range and an optional group.
#[derive(Debug)]
pub struct LongConfig {
    pub config_number: u8,
    pub call: String,
    pub display: String,
    pub tooltip: Option<String>,
    pub range: Option<(i64, i64)>,
    pub default_value: i64,
    pub group: Option<String>,
}

/// The sentence declaring a long option.
pub open spec fn long_config_text(c: LongConfig) -> Seq<char> {
    arg_header_text(c.config_number, c.call@, c.display@) + opt_text("tooltip"@, c.tooltip)
        + range_text(
        match c.range {
            Option::Some((a, b)) => Some((int_dec_text(a as int), int_dec_text(b as int))),
            Option::None => None,
        },
    ) + "{default="@ + int_dec_text(c.default_value as int) + "}"@ + "{type=long}"@ + opt_text(
        "group"@,
        c.group,
    ) + "\n"@
}

impl LongConfig {
    /// This option's declaration sentence.
    pub fn format_config(&self) -> (r: String)
        ensures
            r@ == long_config_text(*self),
    {
        let mut s = arg_header(self.config_number, self.call.as_str(), self.display.as_str());
        append_opt(&mut s, "tooltip", &self.tooltip);
        match self.range {
            Option::Some((a, b)) => {
                let at = i64_to_string(a);
                let bt = i64_to_string(b);
                append_range(&mut s, &at, &bt);
            },
            Option::None => {},
        }
        s.append("{default=");
        let dv = i64_to_string(self.default_value);
        s.append(dv.as_str());
        s.append("}");
        s.append("{type=long}");
        append_opt(&mut s, "group", &self.group);
        s.append("\n");
        proof {
            assert(s@ =~= long_config_text(*self));
        }
        s
    }
}


/// A reload hook the host may invoke to refresh a selector's options;
/// implemented by the embedding application, never by the library.
pub trait ReloadFn {
    /// Produces the refreshed option list.
    fn reload_options(&self) -> Vec<ConfigOptionValue>;
}

/// Lets the user choose one of a fixed list of options.
#[derive(Debug)]
pub struct SelectorConfig {
    pub config_number: u8,
    pub call: String,
    pub display: String,
    pub tooltip: Option<String>,
    /// Whether the host is offered a reload hook for the option list.
    pub reload: bool,
    pub placeholder: Option<String>,
    pub options: Vec<ConfigOptionValue>,
}

/// The sentences declaring a selector option and its values.
pub open spec fn selector_config_text(c: SelectorConfig) -> Seq<char> {
    arg_header_text(c.config_number, c.call@, c.display@) + opt_text("tooltip"@, c.tooltip)
        + opt_text("placeholder"@, c.placeholder) + "{type=selector}"@ + (if c.reload {
        "{reload=true}"@
    } else {
        Seq::<char>::empty()
    }) + "\n"@ + option_values_text(c.options@, c.config_number)
}

impl SelectorConfig {
    /// This option's declaration sentences, one per line: the argument,
    /// then each selectable value.
    pub fn format_config(&self) -> (r: String)
        ensures
            r@ == selector_config_text(*self),
    {
        let mut s = arg_header(self.config_number, self.call.as_str(), self.display.as_str());
        append_opt(&mut s, "tooltip", &self.tooltip);
        append_opt(&mut s, "placeholder", &self.placeholder);
        s.append("{type=selector}");
        if self.reload {
            s.append("{reload=true}");
        }
        s.append("\n");
        append_option_values(&mut s, &self.options, self.config_number);
        proof {
            assert(s@ =~= selector_config_text(*self));
        }
        s
    }
}

/// Lets the user choose one of a fixed list of options or enter a custom
/// value.
#[derive(Debug)]
pub struct EditSelectorConfig {
    pub config_number: u8,
    pub call: String,
    pub display: String,
    pub tooltip: Option<String>,
    pub reload: bool,
    pub placeholder: Option<String>,
    pub options: Vec<ConfigOptionValue>,
}

/// The sentences declaring an edit-selector option and its values.
pub open spec fn edit_selector_config_text(c: EditSelectorConfig) -> Seq<char> {
    arg_header_text(c.config_number, c.call@, c.display@) + opt_text("tooltip"@, c.tooltip)
        + opt_text("placeholder"@, c.placeholder) + "{type=editselector}"@ + (if c.reload {
        "{reload=true}"@
    } else {
        Seq::<char>::empty()
    }) + "\n"@ + option_values_text(c.options@, c.config_number)
}

impl EditSelectorConfig {
    /// This option's declaration sentences, one per line: the argument,
    /// then each selectable value.
    pub fn format_config(&self) -> (r: String)
        ensures
            r@ == edit_selector_config_text(*self),
    {
        let mut s = arg_header(self.config_number, self.call.as_str(), self.display.as_str());
        append_opt(&mut s, "tooltip", &self.tooltip);
        append_opt(&mut s, "placeholder", &self.placeholder);
        s.append("{type=editselector}");
        if self.reload {
            s.append("{reload=true}");
        }
        s.append("\n");
        append_option_values(&mut s, &self.options, self.config_number);
        proof {
            assert(s@ =~= edit_selector_config_text(*self));
        }
        s
    }
}

/// Lets the user pick exactly one of a set of radio options.
#[derive(Debug)]
pub struct RadioConfig {
    pub config_number: u8,
    pub call: String,
    pub display: String,
    pub tooltip: Option<String>,
    pub group: Option<String>,
    pub options: Vec<ConfigOptionValue>,
}

/// The sentences declaring a radio option and its values.
pub open spec fn radio_config_text(c: RadioConfig) -> Seq<char> {
    arg_header_text(c.config_number, c.call@, c.display@) + opt_text("tooltip"@, c.tooltip)
        + opt_text("group"@, c.group) + "{type=radio}"@ + "\n"@ + option_values_text(
        c.options@,
        c.config_number,
    )
}

impl RadioConfig {
    /// This option's declaration sentences, one per line: the argument,
    /// then each selectable value.
    pub fn format_config(&self) -> (r: String)
        ensures
            r@ == radio_config_text(*self),
    {
        let mut s = arg_header(self.config_number, self.call.as_str(), self.display.as_str());
        append_opt(&mut s, "tooltip", &self.tooltip);
        append_opt(&mut s, "group", &self.group);
        s.append("{type=radio}");
        s.append("\n");
        append_option_values(&mut s, &self.options, self.config_number);
        proof {
            assert(s@ =~= radio_config_text(*self));
        }
        s
    }
}


/// One checkbox of a multi-check descriptor; checkboxes nest through
/// `children` into a tree the host renders hierarchically.
#[derive(Debug)]
pub struct MultiCheckValue {
    pub value: String,
    pub display: String,
    pub default_value: bool,
    pub enabled: bool,
    pub children: Vec<MultiCheckValue>,
}

/// The view of an optional parent value string.
pub open spec fn parent_value_view(p: Option<&String>) -> Option<Seq<char>> {
    match p {
        Option::Some(s) => Some(s@),
        Option::None => None,
    }
}

/// The sentences declaring one checkbox of argument `number` and, beneath
/// it, its children, each naming this checkbox as parent.
pub open spec fn multicheck_value_text(
    v: MultiCheckValue,
    number: u8,
    parent: Option<Seq<char>>,
) -> Seq<char>
    decreases v, 0int,
{
    "value {arg="@ + dec_text(number as nat) + "}{value="@ + v.value@ + "}{display="@ + v.display@
        + "}{default="@ + bool_text(v.default_value) + "}{enabled="@ + bool_text(v.enabled) + "}"@
        + (match parent {
        Option::Some(p) => "{parent="@ + p + "}"@,
        Option::None => Seq::<char>::empty(),
    }) + "\n"@ + multicheck_children_text(v.children@, number, v.value@, 0)
}

/// The sentences declaring the children from index `i` on.
pub open spec fn multicheck_children_text(
    cs: Seq<MultiCheckValue>,
    number: u8,
    parent_value: Seq<char>,
    i: int,
) -> Seq<char>
    decreases cs, cs.len() - i + 1,
{
    if i < 0 || i >= cs.len() {
        Seq::empty()
    } else {
        multicheck_value_text(cs[i], number, Some(parent_value)) + multicheck_children_text(
            cs,
            number,
            parent_value,
            i + 1,
        )
    }
}

/// The sentences declaring the top-level checkboxes from index `i` on,
/// which have no parent.
pub open spec fn multicheck_values_text(cs: Seq<MultiCheckValue>, number: u8, i: int) -> Seq<char>
    decreases cs, cs.len() - i + 1,
{
    if i < 0 || i >= cs.len() {
        Seq::empty()
    } else {
        multicheck_value_text(cs[i], number, None) + multicheck_values_text(cs, number, i + 1)
    }
}

impl MultiCheckValue {
    /// This checkbox's declaration sentences: its own line, then its
    /// children's, each naming this checkbox as parent.
    pub fn format_value(&self, number: u8, parent_value: Option<&String>) -> (r: String)
        ensures
            r@ == multicheck_value_text(*self, number, parent_value_view(parent_value)),
        decreases *self, 0int,
    {
        let mut s: String = "value {arg=".to_owned();
        let num = u64_to_string(number as u64);
        s.append(num.as_str());
        s.append("}{value=");
        s.append(self.value.as_str());
        s.append("}{display=");
        s.append(self.display.as_str());
        s.append("}{default=");
        s.append(bool_to_str(self.default_value));
        s.append("}{enabled=");
        s.append(bool_to_str(self.enabled));
        s.append("}");
        match parent_value {
            Option::Some(p) => {
                s.append("{parent=");
                s.append(p.as_str());
                s.append("}");
            },
            Option::None => {},
        }
        s.append("\n");
        let ghost goal = multicheck_value_text(*self, number, parent_value_view(parent_value));
        proof {
            assert(goal =~= s@ + multicheck_children_text(self.children@, number, self.value@, 0));
        }
        let mut i: usize = 0;
        while i < self.children.len()
            invariant
                i <= self.children@.len(),
                goal == s@ + multicheck_children_text(
                    self.children@,
                    number,
                    self.value@,
                    i as int,
                ),
            decreases self.children@.len() - i,
        {
            let ghost s0 = s@;
            let line = self.children[i].format_value(number, Some(&self.value));
            s.append(line.as_str());
            proof {
                assert(multicheck_children_text(self.children@, number, self.value@, i as int)
                    == multicheck_value_text(self.children@[i as int], number, Some(self.value@))
                    + multicheck_children_text(self.children@, number, self.value@, i + 1));
                assert(s0 + (multicheck_value_text(
                    self.children@[i as int],
                    number,
                    Some(self.value@),
                ) + multicheck_children_text(self.children@, number, self.value@, i + 1)) =~= s@
                    + multicheck_children_text(self.children@, number, self.value@, i + 1));
            }
            i = i + 1;
        }
        proof {
            assert(s@ + multicheck_children_text(self.children@, number, self.value@, i as int)
                =~= s@);
        }
        s
    }
}

/// Lets the user tick any subset of a tree of checkboxes.
#[derive(Debug)]
pub struct MultiCheckConfig {
    pub config_number: u8,
    pub call: String,
    pub display: String,
    pub tooltip: Option<String>,
    pub group: Option<String>,
    pub options: Vec<MultiCheckValue>,
}

/// The sentences declaring a multi-check option and its checkbox tree.
pub open spec fn multicheck_config_text(c: MultiCheckConfig) -> Seq<char> {
    arg_header_text(c.config_number, c.call@, c.display@) + opt_text("tooltip"@, c.tooltip)
        + opt_text("group"@, c.group) + "{type=multicheck}"@ + "\n"@ + multicheck_values_text(
        c.options@,
        c.config_number,
        0,
    )
}

impl MultiCheckConfig {
    /// This option's declaration sentences: the argument line, then the
    /// whole checkbox tree.
    pub fn format_config(&self) -> (r: String)
        ensures
            r@ == multicheck_config_text(*self),
    {
        let mut s = arg_header(self.config_number, self.call.as_str(), self.display.as_str());
        append_opt(&mut s, "tooltip", &self.tooltip);
        append_opt(&mut s, "group", &self.group);
        s.append("{type=multicheck}");
        s.append("\n");
        let ghost goal = multicheck_config_text(*self);
        proof {
            assert(goal =~= s@ + multicheck_values_text(self.options@, self.config_number, 0));
        }
        let mut i: usize = 0;
        while i < self.options.len()
            invariant
                i <= self.options@.len(),
                goal == s@ + multicheck_values_text(self.options@, self.config_number, i as int),
            decreases self.options@.len() - i,
        {
            let ghost s0 = s@;
            let line = self.options[i].format_value(self.config_number, None);
            s.append(line.as_str());
            proof {
                assert(multicheck_values_text(self.options@, self.config_number, i as int)
                    == multicheck_value_text(self.options@[i as int], self.config_number, None)
                    + multicheck_values_text(self.options@, self.config_number, i + 1));
                assert(s0 + (multicheck_value_text(
                    self.options@[i as int],
                    self.config_number,
                    None,
                ) + multicheck_values_text(self.options@, self.config_number, i + 1)) =~= s@
                    + multicheck_values_text(self.options@, self.config_number, i + 1));
            }
            i = i + 1;
        }
        proof {
            assert(s@ + multicheck_values_text(self.options@, self.config_number, i as int)
                =~= s@);
        }
        s
    }
}


/// The surface every option descriptor shares: which command-line argument
/// it fills.
pub trait ConfigExtGenerated {
    /// The argument name, as a specification value.
    spec fn spec_call(&self) -> Seq<char>;

    /// The name of the command-line argument this option fills.
    fn call(&self) -> (r: &str)
        ensures
            r@ == self.spec_call(),
    ;
}

/// Marks the closed set of option descriptors.
pub trait ConfigTrait: ConfigExtGenerated {
}

impl ConfigExtGenerated for SelectorConfig {
    open spec fn spec_call(&self) -> Seq<char> {
        self.call@
    }

    fn call(&self) -> (r: &str) {
        self.call.as_str()
    }
}

impl ConfigTrait for SelectorConfig {
}

impl ConfigExtGenerated for EditSelectorConfig {
    open spec fn spec_call(&self) -> Seq<char> {
        self.call@
    }

    fn call(&self) -> (r: &str) {
        self.call.as_str()
    }
}

impl ConfigTrait for EditSelectorConfig {
}

impl ConfigExtGenerated for RadioConfig {
    open spec fn spec_call(&self) -> Seq<char> {
        self.call@
    }

    fn call(&self) -> (r: &str) {
        self.call.as_str()
    }
}

impl ConfigTrait for RadioConfig {
}

impl ConfigExtGenerated for MultiCheckConfig {
    open spec fn spec_call(&self) -> Seq<char> {
        self.call@
    }

    fn call(&self) -> (r: &str) {
        self.call.as_str()
    }
}

impl ConfigTrait for MultiCheckConfig {
}

impl ConfigExtGenerated for LongConfig {
    open spec fn spec_call(&self) -> Seq<char> {
        self.call@
    }

    fn call(&self) -> (r: &str) {
        self.call.as_str()
    }
}

impl ConfigTrait for LongConfig {
}

impl ConfigExtGenerated for IntegerConfig {
    open spec fn spec_call(&self) -> Seq<char> {
        self.call@
    }

    fn call(&self) -> (r: &str) {
        self.call.as_str()
    }
}

impl ConfigTrait for IntegerConfig {
}

impl ConfigExtGenerated for UnsignedConfig {
    open spec fn spec_call(&self) -> Seq<char> {
        self.call@
    }

    fn call(&self) -> (r: &str) {
        self.call.as_str()
    }
}

impl ConfigTrait for UnsignedConfig {
}

impl ConfigExtGenerated for StringConfig {
    open spec fn spec_call(&self) -> Seq<char> {
        self.call@
    }

    fn call(&self) -> (r: &str) {
        self.call.as_str()
    }
}

impl ConfigTrait for StringConfig {
}

impl ConfigExtGenerated for PasswordConfig {
    open spec fn spec_call(&self) -> Seq<char> {
        self.call@
    }

    fn call(&self) -> (r: &str) {
        self.call.as_str()
    }
}

impl ConfigTrait for PasswordConfig {
}

impl ConfigExtGenerated for TimestampConfig {
    open spec fn spec_call(&self) -> Seq<char> {
        self.call@
    }

    fn call(&self) -> (r: &str) {
        self.call.as_str()
    }
}

impl ConfigTrait for TimestampConfig {
}

impl ConfigExtGenerated for FileSelectConfig {
    open spec fn spec_call(&self) -> Seq<char> {
        self.call@
    }

    fn call(&self) -> (r: &str) {
        self.call.as_str()
    }
}

impl ConfigTrait for FileSelectConfig {
}

impl ConfigExtGenerated for BooleanConfig {
    open spec fn spec_call(&self) -> Seq<char> {
        self.call@
    }

    fn call(&self) -> (r: &str) {
        self.call.as_str()
    }
}

impl ConfigTrait for BooleanConfig {
}

impl ConfigExtGenerated for BoolFlagConfig {
    open spec fn spec_call(&self) -> Seq<char> {
        self.call@
    }

    fn call(&self) -> (r: &str) {
        self.call.as_str()
    }
}

impl ConfigTrait for BoolFlagConfig {
}

} // verus!
