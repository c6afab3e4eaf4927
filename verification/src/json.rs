use vstd::prelude::*;

verus! {

/// Appends one character to a string.
///
/// Calls `String::push`, which the standard library documents as appending
/// the given `char` to the end of the string.
#[verifier::external_body]
pub(crate) fn push_char(s: &mut String, c: char)
    ensures
        final(s)@ == old(s)@.push(c),
{
    s.push(c);
}

/// The character for a decimal digit `d < 10`.
pub open spec fn digit_char(d: int) -> char {
    (d + 48) as char
}

/// The lower-case hexadecimal character for a nibble `d < 16`.
pub open spec fn hex_char(d: int) -> char {
    if d < 10 {
        (d + 48) as char
    } else {
        (d + 87) as char
    }
}

/// The decimal representation of a natural number, without leading zeros.
pub open spec fn decimal_text(n: nat) -> Seq<char>
    decreases n,
{
    if n < 10 {
        seq![digit_char(n as int)]
    } else {
        decimal_text(n / 10) + seq![digit_char((n % 10) as int)]
    }
}

fn digit(d: u64) -> (c: char)
    requires
        d < 10,
    ensures
        c == digit_char(d as int),
{
    let b: u8 = d as u8;
    (b + 48) as char
}

fn hex_digit(d: u32) -> (c: char)
    requires
        d < 16,
    ensures
        c == hex_char(d as int),
{
    let b: u8 = d as u8;
    if b < 10 {
        (b + 48) as char
    } else {
        (b + 87) as char
    }
}

/// Appends the decimal representation of `n`.
pub fn write_decimal(out: &mut String, n: u64)
    ensures
        final(out)@ == old(out)@ + decimal_text(n as nat),
    decreases n,
{
    if n >= 10 {
        write_decimal(out, n / 10);
    }
    let c = digit(n % 10);
    push_char(out, c);
}


/// The characters that JSON text gives one character of a string literal:
/// the quote and the backslash, and every control character below U+0020,
/// are escaped; every other character stands for itself.
pub open spec fn escape_char(c: char) -> Seq<char> {
    if c == '"' {
        seq!['\\', '"']
    } else if c == '\\' {
        seq!['\\', '\\']
    } else if c == '\u{8}' {
        seq!['\\', 'b']
    } else if c == '\t' {
        seq!['\\', 't']
    } else if c == '\n' {
        seq!['\\', 'n']
    } else if c == '\u{c}' {
        seq!['\\', 'f']
    } else if c == '\r' {
        seq!['\\', 'r']
    } else if (c as u32) < 0x20 {
        seq!['\\', 'u', '0', '0', hex_char((c as u32 / 16) as int), hex_char((c as u32 % 16) as int)]
    } else {
        seq![c]
    }
}

/// The escaped body of a string literal.
pub open spec fn escape_text(s: Seq<char>) -> Seq<char>
    decreases s.len(),
{
    if s.len() == 0 {
        Seq::empty()
    } else {
        escape_text(s.drop_last()) + escape_char(s.last())
    }
}

/// A JSON string literal for `s`.
pub open spec fn quoted(s: Seq<char>) -> Seq<char> {
    seq!['"'] + escape_text(s) + seq!['"']
}

fn write_escaped_char(out: &mut String, c: char)
    ensures
        final(out)@ == old(out)@ + escape_char(c),
{
    let ghost start = out@;
    if c == '"' {
        push_char(out, '\\');
        push_char(out, '"');
    } else if c == '\\' {
        push_char(out, '\\');
        push_char(out, '\\');
    } else if c == '\u{8}' {
        push_char(out, '\\');
        push_char(out, 'b');
    } else if c == '\t' {
        push_char(out, '\\');
        push_char(out, 't');
    } else if c == '\n' {
        push_char(out, '\\');
        push_char(out, 'n');
    } else if c == '\u{c}' {
        push_char(out, '\\');
        push_char(out, 'f');
    } else if c == '\r' {
        push_char(out, '\\');
        push_char(out, 'r');
    } else if (c as u32) < 0x20 {
        let code = c as u32;
        push_char(out, '\\');
        push_char(out, 'u');
        push_char(out, '0');
        push_char(out, '0');
        let hi = hex_digit(code / 16);
        push_char(out, hi);
        let lo = hex_digit(code % 16);
        push_char(out, lo);
    } else {
        push_char(out, c);
    }
    assert(out@ =~= start + escape_char(c));
}

/// Appends the JSON string literal for `s`.
pub fn write_quoted(out: &mut String, s: &str)
    ensures
        final(out)@ == old(out)@ + quoted(s@),
{
    broadcast use vstd::string::group_string_axioms;
    let ghost start = out@;
    push_char(out, '"');
    for c in iter: s.chars()
        invariant
            iter.seq() == s@,
            out@ == start + seq!['"'] + escape_text(s@.take(iter.index() as int)),
    {
        let ghost before = out@;
        write_escaped_char(out, c);
        assert(s@.take(iter.index() + 1).drop_last() =~= s@.take(iter.index() as int));
    }
    assert(s@.take(s@.len() as int) =~= s@);
    push_char(out, '"');
    assert(out@ =~= start + quoted(s@));
}


/// A JSON number: an unsigned or a signed integer, or a floating-point
/// number held as the text that JSON gives it.
#[derive(Debug)]
pub enum JsonNumber {
    Unsigned(u64),
    Signed(i64),
    Float(String),
}

/// A JSON value.
#[derive(Debug)]
pub enum JsonValue {
    Null,
    Bool(bool),
    Number(JsonNumber),
    Str(String),
    Array(Vec<JsonValue>),
    Object(Vec<(String, JsonValue)>),
}

/// The mathematical model of a [`JsonNumber`].
pub enum NumberModel {
    Unsigned(u64),
    Signed(i64),
    Float(Seq<char>),
}

/// The mathematical model of a [`JsonValue`]: objects keep their members
/// in the order in which they are written.
pub enum JsonModel {
    Null,
    Bool(bool),
    Number(NumberModel),
    Str(Seq<char>),
    Array(Seq<JsonModel>),
    Object(Seq<(Seq<char>, JsonModel)>),
}

impl View for JsonNumber {
    type V = NumberModel;

    open spec fn view(&self) -> NumberModel {
        match self {
            JsonNumber::Unsigned(n) => NumberModel::Unsigned(*n),
            JsonNumber::Signed(n) => NumberModel::Signed(*n),
            JsonNumber::Float(t) => NumberModel::Float(t@),
        }
    }
}

pub open spec fn json_model(v: JsonValue) -> JsonModel
    decreases v,
{
    match v {
        JsonValue::Null => JsonModel::Null,
        JsonValue::Bool(b) => JsonModel::Bool(b),
        JsonValue::Number(n) => JsonModel::Number(n@),
        JsonValue::Str(s) => JsonModel::Str(s@),
        JsonValue::Array(items) => JsonModel::Array(
            Seq::new(
                items@.len(),
                |i: int|
                    if 0 <= i < items@.len() {
                        json_model(items@[i])
                    } else {
                        JsonModel::Null
                    },
            ),
        ),
        JsonValue::Object(members) => JsonModel::Object(
            Seq::new(
                members@.len(),
                |i: int|
                    if 0 <= i < members@.len() {
                        (members@[i].0@, json_model(members@[i].1))
                    } else {
                        (Seq::empty(), JsonModel::Null)
                    },
            ),
        ),
    }
}

impl View for JsonValue {
    type V = JsonModel;

    open spec fn view(&self) -> JsonModel {
        json_model(*self)
    }
}


/// Parts joined by commas.
pub open spec fn join(parts: Seq<Seq<char>>) -> Seq<char>
    decreases parts.len(),
{
    if parts.len() == 0 {
        Seq::empty()
    } else if parts.len() == 1 {
        parts[0]
    } else {
        join(parts.drop_last()) + seq![','] + parts.last()
    }
}

/// Joining one more part adds a comma and the part after the others, or
/// gives the part alone when it is the first.
pub proof fn lemma_join_push(parts: Seq<Seq<char>>, p: Seq<char>)
    ensures
        join(parts.push(p)) == if parts.len() == 0 {
            p
        } else {
            join(parts) + seq![','] + p
        },
{
    assert(parts.push(p).drop_last() =~= parts);
    if parts.len() == 0 {
        assert(parts.push(p)[0] == p);
    }
}

/// The JSON text of a number.
pub open spec fn number_text(n: NumberModel) -> Seq<char> {
    match n {
        NumberModel::Unsigned(u) => decimal_text(u as nat),
        NumberModel::Signed(i) => if i < 0 {
            seq!['-'] + decimal_text((-i) as nat)
        } else {
            decimal_text(i as nat)
        },
        NumberModel::Float(t) => t,
    }
}

/// The compact JSON text of a value.
pub open spec fn value_text(v: JsonModel) -> Seq<char>
    decreases v,
{
    match v {
        JsonModel::Null => "null"@,
        JsonModel::Bool(b) => if b {
            "true"@
        } else {
            "false"@
        },
        JsonModel::Number(n) => number_text(n),
        JsonModel::Str(s) => quoted(s),
        JsonModel::Array(items) => seq!['['] + items_text(items) + seq![']'],
        JsonModel::Object(members) => seq!['{'] + members_text(members) + seq!['}'],
    }
}

/// The texts of array items, separated by commas.
pub open spec fn items_text(items: Seq<JsonModel>) -> Seq<char>
    decreases items,
{
    if items.len() == 0 {
        Seq::empty()
    } else if items.len() == 1 {
        value_text(items[0])
    } else {
        items_text(items.subrange(0, items.len() - 1)) + seq![','] + value_text(
            items[items.len() - 1],
        )
    }
}

/// The texts of object members, separated by commas.
pub open spec fn members_text(members: Seq<(Seq<char>, JsonModel)>) -> Seq<char>
    decreases members,
{
    if members.len() == 0 {
        Seq::empty()
    } else if members.len() == 1 {
        member_text(members[0].0, value_text(members[0].1))
    } else {
        members_text(members.subrange(0, members.len() - 1)) + seq![','] + member_text(
            members[members.len() - 1].0,
            value_text(members[members.len() - 1].1),
        )
    }
}

/// An object member: its quoted name, a colon, and the text of its value.
pub open spec fn member_text(name: Seq<char>, value: Seq<char>) -> Seq<char> {
    quoted(name) + seq![':'] + value
}

/// Appends the JSON text of a number.
pub fn write_number(out: &mut String, n: &JsonNumber)
    ensures
        final(out)@ == old(out)@ + number_text(n@),
{
    match n {
        JsonNumber::Unsigned(u) => write_decimal(out, *u),
        JsonNumber::Signed(i) => {
            if *i < 0 {
                push_char(out, '-');
                let magnitude: u64 = if *i == i64::MIN {
                    9223372036854775808u64
                } else {
                    (-*i) as u64
                };
                write_decimal(out, magnitude);
            } else {
                write_decimal(out, *i as u64);
            }
        },
        JsonNumber::Float(t) => out.append(t.as_str()),
    }
}

/// Appends the compact JSON text of a value.
pub fn write_value(out: &mut String, v: &JsonValue)
    ensures
        final(out)@ == old(out)@ + value_text(v@),
    decreases v,
{
    let ghost start = out@;
    match v {
        JsonValue::Null => out.append("null"),
        JsonValue::Bool(b) => if *b {
            out.append("true")
        } else {
            out.append("false")
        },
        JsonValue::Number(n) => write_number(out, n),
        JsonValue::Str(s) => write_quoted(out, s.as_str()),
        JsonValue::Array(items) => {
            let ghost models = v@->Array_0;
            push_char(out, '[');
            let mut i: usize = 0;
            while i < items.len()
                invariant
                    i <= items@.len(),
                    *v == JsonValue::Array(*items),
                    models == v@->Array_0,
                    models.len() == items@.len(),
                    out@ == start + seq!['['] + items_text(models.take(i as int)),
                decreases items@.len() - i,
            {
                proof {
                    assert(models.take(i + 1).subrange(0, i as int) =~= models.take(i as int));
                    assert(decreases_to!(*v => (*v)->Array_0));
                    assert(decreases_to!(*items => items@));
                    assert(decreases_to!(items@ => items@[i as int]));
                }
                if i > 0 {
                    push_char(out, ',');
                }
                write_value(out, &items[i]);
                i = i + 1;
            }
            assert(models.take(i as int) =~= models);
            push_char(out, ']');
        },
        JsonValue::Object(members) => {
            let ghost models = v@->Object_0;
            push_char(out, '{');
            let mut i: usize = 0;
            while i < members.len()
                invariant
                    i <= members@.len(),
                    *v == JsonValue::Object(*members),
                    models == v@->Object_0,
                    models.len() == members@.len(),
                    out@ == start + seq!['{'] + members_text(models.take(i as int)),
                decreases members@.len() - i,
            {
                proof {
                    assert(models.take(i + 1).subrange(0, i as int) =~= models.take(i as int));
                    assert(decreases_to!(*v => (*v)->Object_0));
                    assert(decreases_to!(*members => members@));
                    assert(decreases_to!(members@ => members@[i as int]));
                    assert(decreases_to!(members@[i as int] => members@[i as int].1));
                }
                if i > 0 {
                    push_char(out, ',');
                }
                let member = &members[i];
                write_quoted(out, member.0.as_str());
                push_char(out, ':');
                write_value(out, &member.1);
                i = i + 1;
            }
            assert(models.take(i as int) =~= models);
            push_char(out, '}');
        },
    }
    assert(out@ =~= start + value_text(v@));
}


impl Clone for JsonNumber {
    fn clone(&self) -> (r: Self)
        ensures
            r@ == self@,
    {
        match self {
            JsonNumber::Unsigned(n) => JsonNumber::Unsigned(*n),
            JsonNumber::Signed(n) => JsonNumber::Signed(*n),
            JsonNumber::Float(t) => JsonNumber::Float(t.clone()),
        }
    }
}

impl Clone for JsonValue {
    fn clone(&self) -> (r: Self)
        ensures
            r@ == self@,
        decreases self,
    {
        match self {
            JsonValue::Null => JsonValue::Null,
            JsonValue::Bool(b) => JsonValue::Bool(*b),
            JsonValue::Number(n) => JsonValue::Number(n.clone()),
            JsonValue::Str(s) => JsonValue::Str(s.clone()),
            JsonValue::Array(items) => {
                let mut copies: Vec<JsonValue> = Vec::new();
                let mut i: usize = 0;
                while i < items.len()
                    invariant
                        i <= items@.len(),
                        *self == JsonValue::Array(*items),
                        copies@.len() == i,
                        forall|k: int| 0 <= k < i ==> json_model(#[trigger] copies@[k]) == json_model(items@[k]),
                    decreases items@.len() - i,
                {
                    proof {
                        assert(decreases_to!(*self => (*self)->Array_0));
                        assert(decreases_to!(*items => items@));
                        assert(decreases_to!(items@ => items@[i as int]));
                    }
                    let c = items[i].clone();
                    copies.push(c);
                    i = i + 1;
                }
                let r = JsonValue::Array(copies);
                assert(r@->Array_0 =~= self@->Array_0);
                r
            },
            JsonValue::Object(members) => {
                let mut copies: Vec<(String, JsonValue)> = Vec::new();
                let mut i: usize = 0;
                while i < members.len()
                    invariant
                        i <= members@.len(),
                        *self == JsonValue::Object(*members),
                        copies@.len() == i,
                        forall|k: int| 0 <= k < i ==> (#[trigger] copies@[k]).0@ == members@[k].0@
                            && json_model(copies@[k].1) == json_model(members@[k].1),
                    decreases members@.len() - i,
                {
                    proof {
                        assert(decreases_to!(*self => (*self)->Object_0));
                        assert(decreases_to!(*members => members@));
                        assert(decreases_to!(members@ => members@[i as int]));
                        assert(decreases_to!(members@[i as int] => members@[i as int].1));
                    }
                    let name = members[i].0.clone();
                    let value = members[i].1.clone();
                    copies.push((name, value));
                    i = i + 1;
                }
                let r = JsonValue::Object(copies);
                assert(r@->Object_0 =~= self@->Object_0);
                r
            },
        }
    }
}


/// The members that an optional field contributes to an object: none when
/// the field is absent, else its key (quoted, with the colon) and its text.
pub open spec fn opt_member(key: Seq<char>, value: Option<Seq<char>>) -> Seq<Seq<char>> {
    match value {
        Some(t) => seq![key + t],
        None => Seq::empty(),
    }
}

/// The text of an optional string, as a JSON string literal.
pub open spec fn opt_quoted(value: Option<Seq<char>>) -> Option<Seq<char>> {
    match value {
        Some(s) => Some(quoted(s)),
        None => None,
    }
}

/// The decimal text of an optional `u8`.
pub open spec fn opt_u8_text(value: Option<u8>) -> Option<Seq<char>> {
    match value {
        Some(n) => Some(decimal_text(n as nat)),
        None => None,
    }
}

/// The decimal text of an optional `u32`.
pub open spec fn opt_u32_text(value: Option<u32>) -> Option<Seq<char>> {
    match value {
        Some(n) => Some(decimal_text(n as nat)),
        None => None,
    }
}

/// The decimal text of an optional `u64`.
pub open spec fn opt_u64_text(value: Option<u64>) -> Option<Seq<char>> {
    match value {
        Some(n) => Some(decimal_text(n as nat)),
        None => None,
    }
}

/// The characters of an optional owned string.
pub open spec fn opt_string(o: Option<String>) -> Option<Seq<char>> {
    match o {
        Some(s) => Some(s@),
        None => None,
    }
}

/// The string literals for a list of strings.
pub open spec fn quoted_list(items: Seq<Seq<char>>) -> Seq<Seq<char>>
    decreases items.len(),
{
    if items.len() == 0 {
        Seq::empty()
    } else {
        quoted_list(items.drop_last()).push(quoted(items.last()))
    }
}

/// A JSON array of strings.
pub open spec fn string_array_text(items: Seq<Seq<char>>) -> Seq<char> {
    seq!['['] + join(quoted_list(items)) + seq![']']
}

/// The characters of each string of a list.
pub open spec fn strs_model(items: Seq<&str>) -> Seq<Seq<char>> {
    Seq::new(items.len(), |i: int| items[i]@)
}

/// Returns the JSON string literal for `s`.
pub fn quoted_string(s: &str) -> (r: String)
    ensures
        r@ == quoted(s@),
{
    let mut r = String::new();
    write_quoted(&mut r, s);
    assert(r@ =~= quoted(s@));
    r
}

/// Returns the decimal representation of `n`.
pub fn decimal_string(n: u64) -> (r: String)
    ensures
        r@ == decimal_text(n as nat),
{
    let mut r = String::new();
    write_decimal(&mut r, n);
    assert(r@ =~= decimal_text(n as nat));
    r
}

/// Returns the JSON array of the given strings.
pub fn string_array(items: &[&str]) -> (r: String)
    ensures
        r@ == string_array_text(strs_model(items@)),
{
    let ghost model = strs_model(items@);
    let mut r = String::new();
    push_char(&mut r, '[');
    let mut i: usize = 0;
    while i < items.len()
        invariant
            i <= items@.len(),
            model == strs_model(items@),
            r@ == seq!['['] + join(quoted_list(model.take(i as int))),
        decreases items@.len() - i,
    {
        proof {
            let prefix = model.take(i as int);
            assert(model.take(i + 1).drop_last() =~= prefix);
            assert(quoted_list(prefix).len() == i) by {
                lemma_quoted_list_len(prefix);
            }
            lemma_join_push(quoted_list(prefix), quoted(model[i as int]));
        }
        if i > 0 {
            push_char(&mut r, ',');
        }
        write_quoted(&mut r, items[i]);
        i = i + 1;
    }
    assert(model.take(i as int) =~= model);
    push_char(&mut r, ']');
    r
}

proof fn lemma_quoted_list_len(items: Seq<Seq<char>>)
    ensures
        quoted_list(items).len() == items.len(),
    decreases items.len(),
{
    if items.len() > 0 {
        lemma_quoted_list_len(items.drop_last());
    }
}

/// Writes the members of a JSON object one after the other.
pub(crate) struct ObjectWriter {
    pub(crate) first: bool,
    pub(crate) start: Ghost<Seq<char>>,
    pub(crate) members: Ghost<Seq<Seq<char>>>,
}

impl ObjectWriter {
    /// The output holds what stood there before and the object written so far.
    pub(crate) open spec fn inv(&self, out: Seq<char>) -> bool {
        &&& out == self.start@ + seq!['{'] + join(self.members@)
        &&& self.first <==> self.members@.len() == 0
    }

    pub(crate) fn begin(out: &mut String) -> (w: ObjectWriter)
        ensures
            w.start@ == old(out)@,
            w.members@ == Seq::<Seq<char>>::empty(),
            w.inv(final(out)@),
    {
        let ghost start = out@;
        push_char(out, '{');
        assert(join(Seq::<Seq<char>>::empty()) == Seq::<char>::empty());
        assert(out@ =~= start + seq!['{'] + join(Seq::<Seq<char>>::empty()));
        ObjectWriter { first: true, start: Ghost(start), members: Ghost(Seq::empty()) }
    }

    /// Appends a member whose key text (quoted, with the colon) and value
    /// text are given.
    pub(crate) fn member(&mut self, out: &mut String, key: &str, value: &str)
        requires
            old(self).inv(old(out)@),
        ensures
            final(self).inv(final(out)@),
            final(self).start == old(self).start,
            final(self).members@ == old(self).members@.push(key@ + value@),
    {
        proof {
            lemma_join_push(self.members@, key@ + value@);
        }
        if !self.first {
            push_char(out, ',');
        }
        out.append(key);
        out.append(value);
        self.first = false;
        self.members = Ghost(self.members@.push(key@ + value@));
        assert(out@ =~= self.start@ + seq!['{'] + join(self.members@));
    }

    /// Appends a member when a value text is given, and nothing otherwise.
    pub(crate) fn member_opt(&mut self, out: &mut String, key: &str, value: Option<String>)
        requires
            old(self).inv(old(out)@),
        ensures
            final(self).inv(final(out)@),
            final(self).start == old(self).start,
            final(self).members@ == old(self).members@ + opt_member(key@, opt_string(value)),
    {
        match value {
            Some(v) => {
                self.member(out, key, v.as_str());
                assert(self.members@ =~= old(self).members@ + opt_member(key@, opt_string(Some(v))));
            },
            None => {
                assert(self.members@ =~= old(self).members@ + opt_member(key@, opt_string(None::<String>)));
            },
        }
    }

    pub(crate) fn finish(self, out: &mut String)
        requires
            self.inv(old(out)@),
        ensures
            final(out)@ == self.start@ + seq!['{'] + join(self.members@) + seq!['}'],
    {
        push_char(out, '}');
    }
}


/// The characters of an optional string.
pub open spec fn opt_str(o: Option<&str>) -> Option<Seq<char>> {
    match o {
        Some(s) => Some(s@),
        None => None,
    }
}

/// The model of an optional JSON value.
pub open spec fn opt_json(o: Option<JsonValue>) -> Option<JsonModel> {
    match o {
        Some(v) => Some(v@),
        None => None,
    }
}

/// The model of an optional JSON number.
pub open spec fn opt_number(o: Option<JsonNumber>) -> Option<NumberModel> {
    match o {
        Some(n) => Some(n@),
        None => None,
    }
}

/// The text of an optional JSON number.
pub open spec fn opt_number_text(o: Option<NumberModel>) -> Option<Seq<char>> {
    match o {
        Some(n) => Some(number_text(n)),
        None => None,
    }
}

/// The text of an optional JSON value.
pub open spec fn opt_value_text(o: Option<JsonModel>) -> Option<Seq<char>> {
    match o {
        Some(v) => Some(value_text(v)),
        None => None,
    }
}

/// The text of an optional list of strings, as a JSON array.
pub open spec fn opt_string_array(o: Option<Seq<Seq<char>>>) -> Option<Seq<char>> {
    match o {
        Some(items) => Some(string_array_text(items)),
        None => None,
    }
}

/// Returns the JSON text of a number.
pub fn number_string(n: &JsonNumber) -> (r: String)
    ensures
        r@ == number_text(n@),
{
    let mut r = String::new();
    write_number(&mut r, n);
    assert(r@ =~= number_text(n@));
    r
}

/// Returns the compact JSON text of a value.
pub fn value_string(v: &JsonValue) -> (r: String)
    ensures
        r@ == value_text(v@),
{
    let mut r = String::new();
    write_value(&mut r, v);
    assert(r@ =~= value_text(v@));
    r
}


/// Returns the JSON string literal of an optional string.
pub fn opt_quoted_string(o: Option<&str>) -> (r: Option<String>)
    ensures
        opt_string(r) == opt_quoted(opt_str(o)),
{
    match o {
        Some(s) => Some(quoted_string(s)),
        None => None,
    }
}

/// Returns the decimal text of an optional `u8`.
pub fn opt_u8_string(o: Option<u8>) -> (r: Option<String>)
    ensures
        opt_string(r) == opt_u8_text(o),
{
    match o {
        Some(n) => Some(decimal_string(n as u64)),
        None => None,
    }
}

/// Returns the decimal text of an optional `u32`.
pub fn opt_u32_string(o: Option<u32>) -> (r: Option<String>)
    ensures
        opt_string(r) == opt_u32_text(o),
{
    match o {
        Some(n) => Some(decimal_string(n as u64)),
        None => None,
    }
}

/// Returns the decimal text of an optional `u64`.
pub fn opt_u64_string(o: Option<u64>) -> (r: Option<String>)
    ensures
        opt_string(r) == opt_u64_text(o),
{
    match o {
        Some(n) => Some(decimal_string(n)),
        None => None,
    }
}

/// Returns the JSON text of an optional value.
pub fn opt_value_string(o: &Option<JsonValue>) -> (r: Option<String>)
    ensures
        opt_string(r) == opt_value_text(opt_json(*o)),
{
    match o {
        Some(v) => Some(value_string(v)),
        None => None,
    }
}


/// The value of a hexadecimal digit, either case.
pub open spec fn hex_value(c: char) -> Option<int> {
    if '0' <= c && c <= '9' {
        Some(c as int - 48)
    } else if 'a' <= c && c <= 'f' {
        Some(c as int - 87)
    } else if 'A' <= c && c <= 'F' {
        Some(c as int - 55)
    } else {
        None
    }
}

/// The character that a `\u` escape with four hexadecimal digits stands
/// for; escapes of surrogate halves are not read.
pub open spec fn unicode_escape(a: char, b: char, c: char, d: char) -> Option<char> {
    match (hex_value(a), hex_value(b), hex_value(c), hex_value(d)) {
        (Some(x), Some(y), Some(z), Some(w)) => {
            let code = x * 4096 + y * 256 + z * 16 + w;
            if code < 0xD800 || 0xE000 <= code {
                Some(code as char)
            } else {
                None
            }
        },
        _ => None,
    }
}

pub open spec fn prepend(c: char, rest: Option<Seq<char>>) -> Option<Seq<char>> {
    match rest {
        Some(r) => Some(seq![c] + r),
        None => None,
    }
}

/// Reads the body of a JSON string literal, by JSON's rules (surrogate
/// pairs aside): nothing when a quote or a control character stands
/// unescaped or an escape is malformed.
pub open spec fn unescape(t: Seq<char>) -> Option<Seq<char>>
    decreases t.len(),
{
    if t.len() == 0 {
        Some(Seq::empty())
    } else if t[0] == '\\' {
        if t.len() < 2 {
            None
        } else {
            let e = t[1];
            if e == '"' || e == '\\' || e == '/' {
                prepend(e, unescape(t.skip(2)))
            } else if e == 'b' {
                prepend('\u{8}', unescape(t.skip(2)))
            } else if e == 'f' {
                prepend('\u{c}', unescape(t.skip(2)))
            } else if e == 'n' {
                prepend('\n', unescape(t.skip(2)))
            } else if e == 'r' {
                prepend('\r', unescape(t.skip(2)))
            } else if e == 't' {
                prepend('\t', unescape(t.skip(2)))
            } else if e == 'u' && t.len() >= 6 {
                match unicode_escape(t[2], t[3], t[4], t[5]) {
                    Some(c) => prepend(c, unescape(t.skip(6))),
                    None => None,
                }
            } else {
                None
            }
        }
    } else if t[0] == '"' || (t[0] as u32) < 0x20 {
        None
    } else {
        prepend(t[0], unescape(t.drop_first()))
    }
}

proof fn lemma_escape_text_append(a: Seq<char>, b: Seq<char>)
    ensures
        escape_text(a + b) == escape_text(a) + escape_text(b),
    decreases b.len(),
{
    if b.len() == 0 {
        assert(a + b =~= a);
        assert(escape_text(a) + escape_text(b) =~= escape_text(a));
    } else {
        lemma_escape_text_append(a, b.drop_last());
        assert((a + b).drop_last() =~= a + b.drop_last());
        assert((a + b).last() == b.last());
        assert(escape_text(a) + escape_text(b) =~= escape_text(a) + escape_text(b.drop_last())
            + escape_char(b.last()));
    }
}

proof fn lemma_unescape_char(c: char, rest: Seq<char>)
    ensures
        unescape(escape_char(c) + rest) == prepend(c, unescape(rest)),
{
    let t = escape_char(c) + rest;
    let n = c as u32;
    if c == '"' || c == '\\' || c == '\u{8}' || c == '\t' || c == '\n' || c == '\u{c}' || c
        == '\r' {
        assert(t.skip(2) =~= rest);
    } else if n < 0x20 {
        let hi = (n / 16) as int;
        let lo = (n % 16) as int;
        assert(t[2] == '0' && t[3] == '0');
        assert(t[4] == hex_char(hi));
        assert(t[5] == hex_char(lo));
        assert(hex_value(hex_char(hi)) == Some(hi));
        assert(hex_value(hex_char(lo)) == Some(lo));
        assert(hex_value('0') == Some(0int));
        assert(hi * 16 + lo == n);
        assert(t.skip(6) =~= rest);
        assert((n as int) as char == c) by {
            vstd::utf8::char_u32_cast(c, n);
        }
    } else {
        assert(t.drop_first() =~= rest);
    }
}

/// The body written for a string reads back as that string.
pub proof fn lemma_unescape_escape(s: Seq<char>)
    ensures
        unescape(escape_text(s)) == Some(s),
    decreases s.len(),
{
    if s.len() == 0 {
    } else {
        let rest = s.drop_first();
        lemma_escape_text_append(seq![s[0]], rest);
        assert(seq![s[0]] + rest =~= s);
        let one = seq![s[0]];
        assert(one.drop_last() =~= Seq::<char>::empty());
        assert(one.last() == s[0]);
        assert(escape_text(Seq::<char>::empty()) == Seq::<char>::empty());
        assert(escape_text(one) == escape_text(one.drop_last()) + escape_char(one.last()));
        assert(escape_text(one) =~= escape_char(s[0]));
        lemma_unescape_escape(rest);
        lemma_unescape_char(s[0], escape_text(rest));
        assert(seq![s[0]] + rest =~= s);
    }
}


/// Reads a JSON string literal: a quote, a body, a quote.
pub open spec fn read_string_literal(t: Seq<char>) -> Option<Seq<char>> {
    if t.len() >= 2 && t[0] == '"' && t[t.len() - 1] == '"' {
        unescape(t.subrange(1, t.len() - 1))
    } else {
        None
    }
}

/// Every string literal this library writes reads back as its string.
pub proof fn lemma_quoted_round_trip(s: Seq<char>)
    ensures
        read_string_literal(quoted(s)) == Some(s),
{
    let t = quoted(s);
    assert(t.subrange(1, t.len() - 1) =~= escape_text(s));
    lemma_unescape_escape(s);
}

/// The number that a string of decimal digits stands for.
pub open spec fn digits_value(t: Seq<char>) -> int
    decreases t.len(),
{
    if t.len() == 0 {
        0
    } else {
        digits_value(t.drop_last()) * 10 + (t.last() as int - 48)
    }
}

/// The decimal text of a number reads back as that number, and begins with
/// a zero only when it is the number zero.
pub proof fn lemma_decimal_round_trip(n: nat)
    ensures
        digits_value(decimal_text(n)) == n,
        decimal_text(n).len() > 0,
        decimal_text(n)[0] == '0' ==> n == 0,
        forall|i: int| 0 <= i < decimal_text(n).len() ==> '0' <= #[trigger] decimal_text(n)[i] <= '9',
    decreases n,
{
    assert(digit_char((n % 10) as int) as int == (n % 10) + 48);
    if n < 10 {
        assert(seq![digit_char(n as int)].drop_last() =~= Seq::<char>::empty());
        assert(digits_value(Seq::<char>::empty()) == 0);
    } else {
        lemma_decimal_round_trip(n / 10);
        let t = decimal_text(n);
        assert(t.drop_last() =~= decimal_text(n / 10));
        assert(t[0] == decimal_text(n / 10)[0]);
    }
}


/// The integer that the text of a JSON integer stands for: a minus sign
/// negates the digits after it.
pub open spec fn integer_value(t: Seq<char>) -> int {
    if t.len() > 0 && t[0] == '-' {
        -digits_value(t.drop_first())
    } else {
        digits_value(t)
    }
}

/// Whether an optional value is present, as a count.
pub open spec fn count_present<T>(o: Option<T>) -> nat {
    if o is Some {
        1
    } else {
        0
    }
}

/// The text of a number value is the number's own text, and the text of an
/// integer reads back as that integer, sign included: a negative integer is
/// written with a minus sign before the digits of its magnitude.
pub proof fn lemma_number_value_reads_back(n: NumberModel)
    ensures
        value_text(JsonModel::Number(n)) == number_text(n),
        n matches NumberModel::Unsigned(u) ==> integer_value(value_text(JsonModel::Number(n)))
            == u as int,
        n matches NumberModel::Signed(i) ==> integer_value(value_text(JsonModel::Number(n)))
            == i as int,
        n matches NumberModel::Signed(i) ==> (value_text(JsonModel::Number(n))[0] == '-' <==> i
            < 0),
        n matches NumberModel::Float(t) ==> value_text(JsonModel::Number(n)) == t,
{
    match n {
        NumberModel::Unsigned(u) => {
            lemma_decimal_round_trip(u as nat);
        },
        NumberModel::Signed(i) => {
            if i < 0 {
                let d = decimal_text((-i) as nat);
                lemma_decimal_round_trip((-i) as nat);
                assert((seq!['-'] + d).drop_first() =~= d);
                assert((seq!['-'] + d)[0] == '-');
            } else {
                lemma_decimal_round_trip(i as nat);
                assert('0' <= decimal_text(i as nat)[0] <= '9');
            }
        },
        NumberModel::Float(t) => {},
    }
}

/// The texts of the other scalar values: `null`, `true`, `false`, and a
/// string literal that reads back as the string.
pub proof fn lemma_scalar_value_text(b: bool, s: Seq<char>)
    ensures
        value_text(JsonModel::Null) == "null"@,
        value_text(JsonModel::Bool(b)) == (if b {
            "true"@
        } else {
            "false"@
        }),
        read_string_literal(value_text(JsonModel::Str(s))) == Some(s),
{
    lemma_quoted_round_trip(s);
}

/// A JSON array of strings has one string literal per string, in order,
/// each reading back as its string.
pub proof fn lemma_string_array_items(items: Seq<Seq<char>>)
    ensures
        quoted_list(items).len() == items.len(),
        forall|i: int|
            0 <= i < items.len() ==> read_string_literal(#[trigger] quoted_list(items)[i]) == Some(
                items[i],
            ),
    decreases items.len(),
{
    if items.len() > 0 {
        lemma_string_array_items(items.drop_last());
        assert forall|i: int| 0 <= i < items.len() implies read_string_literal(
            #[trigger] quoted_list(items)[i],
        ) == Some(items[i]) by {
            if i < items.len() - 1 {
                assert(quoted_list(items)[i] == quoted_list(items.drop_last())[i]);
                assert(items.drop_last()[i] == items[i]);
            } else {
                lemma_quoted_round_trip(items.last());
            }
        }
    }
}

/// A list of strings made from string slices holds each slice's characters,
/// all of them and in order.
pub proof fn lemma_strs_model(items: Seq<&str>)
    ensures
        strs_model(items).len() == items.len(),
        forall|i: int| 0 <= i < items.len() ==> #[trigger] strs_model(items)[i] == items[i]@,
{
}

/// A member that is present is among the members of an object.
pub proof fn lemma_opt_member_present(key: Seq<char>, value: Option<Seq<char>>)
    ensures
        opt_member(key, value).len() == count_present(value),
        value matches Some(t) ==> opt_member(key, value).contains(key + t),
{
    if let Some(t) = value {
        assert(opt_member(key, value)[0] == key + t);
    }
}

} // verus!
