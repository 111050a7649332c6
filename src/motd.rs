use vstd::prelude::*;

verus! {

/// Whether `sep` occurs in `s` at index `i`.
pub open spec fn occurs_at(s: Seq<char>, sep: Seq<char>, i: int) -> bool {
    0 <= i && i + sep.len() <= s.len() && s.subrange(i, i + sep.len()) == sep
}

/// The pieces of `s` between the occurrences of `sep` found scanning from
/// `i`, the current piece starting at `start`; occurrences do not overlap.
pub open spec fn split_from(s: Seq<char>, sep: Seq<char>, start: int, i: int) -> Seq<Seq<char>>
    decreases s.len() - i,
{
    if i >= s.len() || start > i {
        seq![s.subrange(start, s.len() as int)]
    } else if sep.len() > 0 && occurs_at(s, sep, i) {
        seq![s.subrange(start, i)] + split_from(s, sep, i + sep.len(), i + sep.len())
    } else {
        split_from(s, sep, start, i + 1)
    }
}

/// The pieces of `s` between the occurrences of `sep`, as `str::split`
/// gives them.
pub open spec fn split(s: Seq<char>, sep: Seq<char>) -> Seq<Seq<char>> {
    split_from(s, sep, 0, 0)
}

/// `s` without its first and its last character; empty where it has fewer
/// than two.
pub open spec fn strip_ends(s: Seq<char>) -> Seq<char> {
    if s.len() >= 2 { s.subrange(1, s.len() - 1) } else { Seq::empty() }
}

/// `s` without its first character.
pub open spec fn drop_first_char(s: Seq<char>) -> Seq<char> {
    if s.len() >= 1 { s.drop_first() } else { Seq::empty() }
}

/// The model of one styled piece of a message of the day.
pub struct ComponentView {
    pub text: Seq<char>,
    pub color: Seq<char>,
    pub bold: bool,
    pub italic: bool,
    pub underlined: bool,
    pub strikethrough: bool,
    pub obfuscated: bool,
}

/// One styled piece of a message of the day.
#[derive(Debug, Clone)]
pub struct TextComponent {
    pub text: String,
    pub color: String,
    pub bold: bool,
    pub italic: bool,
    pub underlined: bool,
    pub strikethrough: bool,
    pub obfuscated: bool,
}

impl TextComponent {
    pub open spec fn view(&self) -> ComponentView {
        ComponentView {
            text: self.text@,
            color: self.color@,
            bold: self.bold,
            italic: self.italic,
            underlined: self.underlined,
            strikethrough: self.strikethrough,
            obfuscated: self.obfuscated,
        }
    }
}

/// A piece before any of its fields: no text, gray, no styles.
pub open spec fn plain_component() -> ComponentView {
    ComponentView {
        text: Seq::empty(),
        color: "gray"@,
        bold: false,
        italic: false,
        underlined: false,
        strikethrough: false,
        obfuscated: false,
    }
}

/// A style flag as written: `true`, `false`, or anything else, which leaves
/// the flag as it was.
pub open spec fn flag_value(value: Seq<char>, current: bool) -> bool {
    if value == "true"@ { true } else if value == "false"@ { false } else { current }
}

/// A piece after one `"key":value` field; a field without a `:`, or with an
/// unknown key, changes nothing.
pub open spec fn apply_field(c: ComponentView, field: Seq<char>) -> ComponentView {
    let kv = split(field, ":"@);
    if kv.len() < 2 {
        c
    } else {
        let key = strip_ends(kv[0]);
        let value = kv[1];
        if key == "text"@ {
            ComponentView { text: strip_ends(value), ..c }
        } else if key == "color"@ {
            ComponentView { color: strip_ends(value), ..c }
        } else if key == "bold"@ {
            ComponentView { bold: flag_value(value, c.bold), ..c }
        } else if key == "italic"@ {
            ComponentView { italic: flag_value(value, c.italic), ..c }
        } else if key == "underlined"@ {
            ComponentView { underlined: flag_value(value, c.underlined), ..c }
        } else if key == "strikethrough"@ {
            ComponentView { strikethrough: flag_value(value, c.strikethrough), ..c }
        } else if key == "obfuscated"@ {
            ComponentView { obfuscated: flag_value(value, c.obfuscated), ..c }
        } else {
            c
        }
    }
}

/// A piece after its fields, in order.
pub open spec fn apply_fields(c: ComponentView, fields: Seq<Seq<char>>) -> ComponentView
    decreases fields.len(),
{
    if fields.len() == 0 {
        c
    } else {
        apply_field(apply_fields(c, fields.drop_last()), fields.last())
    }
}

/// The piece an object of a message of the day describes (its text without
/// the opening brace); its fields are separated by commas.
pub open spec fn component_of(object: Seq<char>) -> ComponentView {
    apply_fields(plain_component(), split(drop_first_char(object), ","@))
}

/// The objects of a message of the day written as a flat JSON array of text
/// components: the array's brackets and the last closing brace dropped, then
/// split at each `},`.
pub open spec fn motd_objects(motd: Seq<char>) -> Seq<Seq<char>> {
    let inner = if motd.len() >= 3 { motd.subrange(1, motd.len() - 2) } else { Seq::<char>::empty() };
    split(inner, "},"@)
}

/// The characters of `s`.
fn chars_of(s: &str) -> (r: Vec<char>)
    ensures
        r@ == s@,
{
    let n = s.unicode_len();
    let mut out: Vec<char> = Vec::new();
    let mut i: usize = 0;
    while i < n
        invariant
            n == s@.len(),
            i <= n,
            out@ == s@.take(i as int),
        decreases n - i,
    {
        out.push(s.get_char(i));
        i = i + 1;
        assert(out@ =~= s@.take(i as int));
    }
    assert(s@.take(n as int) =~= s@);
    out
}

/// Whether `sep` occurs in `s` at index `i`.
fn matches_at(s: &Vec<char>, sep: &Vec<char>, i: usize) -> (r: bool)
    ensures
        r == occurs_at(s@, sep@, i as int),
{
    if i > s.len() || sep.len() > s.len() - i {
        return false;
    }
    let total = s.len();
    let mut j: usize = 0;
    while j < sep.len()
        invariant
            total == s@.len(),
            i + sep@.len() <= total,
            j <= sep@.len(),
            s@.subrange(i as int, i + j) == sep@.take(j as int),
        decreases sep@.len() - j,
    {
        if s[i + j] != sep[j] {
            assert(s@.subrange(i as int, i + sep@.len())[j as int] != sep@[j as int]);
            return false;
        }
        j = j + 1;
        assert(s@.subrange(i as int, i + j) =~= sep@.take(j as int));
    }
    assert(sep@.take(j as int) =~= sep@);
    true
}

/// The pieces of `s` between the occurrences of `sep`.
pub fn split_str(s: &str, sep: &str) -> (r: Vec<String>)
    ensures
        r@.len() == split(s@, sep@).len(),
        forall|k: int| 0 <= k < r@.len() ==> #[trigger] r@[k]@ == split(s@, sep@)[k],
{
    let chars = chars_of(s);
    let pat = chars_of(sep);
    let n = chars.len();
    let m = pat.len();
    let mut out: Vec<String> = Vec::new();
    let ghost mut done: Seq<Seq<char>> = Seq::empty();
    let mut start: usize = 0;
    let mut i: usize = 0;
    assert(done + split_from(s@, sep@, 0, 0) =~= split(s@, sep@));
    while i < n
        invariant
            chars@ == s@,
            pat@ == sep@,
            n == s@.len(),
            m == sep@.len(),
            start <= i <= n,
            out@.len() == done.len(),
            forall|k: int| 0 <= k < out@.len() ==> #[trigger] out@[k]@ == done[k],
            done + split_from(s@, sep@, start as int, i as int) == split(s@, sep@),
        decreases n - i,
    {
        if m > 0 && matches_at(&chars, &pat, i) {
            let piece = String::from_str(s.substring_char(start, i));
            proof {
                let rest = split_from(s@, sep@, (i + m) as int, (i + m) as int);
                assert(done + split_from(s@, sep@, start as int, i as int) == done + (seq![s@.subrange(start as int, i as int)] + rest));
                assert(done + (seq![s@.subrange(start as int, i as int)] + rest) =~= done.push(s@.subrange(start as int, i as int)) + rest);
                done = done.push(s@.subrange(start as int, i as int));
            }
            out.push(piece);
            i = i + m;
            start = i;
        } else {
            i = i + 1;
        }
    }
    let last = String::from_str(s.substring_char(start, n));
    proof {
        assert(done + split_from(s@, sep@, start as int, i as int) =~= done.push(s@.subrange(start as int, n as int)));
        done = done.push(s@.subrange(start as int, n as int));
    }
    out.push(last);
    out
}

/// `s` without its first and its last character.
fn strip_ends_str(s: &str) -> (r: String)
    ensures
        r@ == strip_ends(s@),
{
    let n = s.unicode_len();
    if n >= 2 {
        String::from_str(s.substring_char(1, n - 1))
    } else {
        String::new()
    }
}

/// Whether `s` holds exactly the characters of `lit`.
fn is(s: &String, lit: &str) -> (r: bool)
    ensures
        r == (s@ == lit@),
{
    let other = String::from_str(lit);
    *s == other
}

/// A style flag as written.
fn flag_of(value: &String, current: bool) -> (r: bool)
    ensures
        r == flag_value(value@, current),
{
    if is(value, "true") {
        true
    } else if is(value, "false") {
        false
    } else {
        current
    }
}

/// Applies one `"key":value` field to a piece.
fn apply_field_to(c: &mut TextComponent, field: &str)
    ensures
        final(c).view() == apply_field(old(c).view(), field@),
{
    let kv = split_str(field, ":");
    if kv.len() < 2 {
        return;
    }
    let key = strip_ends_str(kv[0].as_str());
    let value = &kv[1];
    if is(&key, "text") {
        c.text = strip_ends_str(value.as_str());
    } else if is(&key, "color") {
        c.color = strip_ends_str(value.as_str());
    } else if is(&key, "bold") {
        c.bold = flag_of(value, c.bold);
    } else if is(&key, "italic") {
        c.italic = flag_of(value, c.italic);
    } else if is(&key, "underlined") {
        c.underlined = flag_of(value, c.underlined);
    } else if is(&key, "strikethrough") {
        c.strikethrough = flag_of(value, c.strikethrough);
    } else if is(&key, "obfuscated") {
        c.obfuscated = flag_of(value, c.obfuscated);
    }
}

/// The piece an object of a message of the day describes.
pub fn component_from(object: &str) -> (r: TextComponent)
    ensures
        r.view() == component_of(object@),
{
    let n = object.unicode_len();
    let body = if n >= 1 { object.substring_char(1, n) } else { object };
    assert(body@ == drop_first_char(object@)) by {
        if n >= 1 {
            assert(object@.subrange(1, n as int) =~= object@.drop_first());
        }
    }
    let fields = split_str(body, ",");
    let mut c = TextComponent {
        text: String::new(),
        color: String::from_str("gray"),
        bold: false,
        italic: false,
        underlined: false,
        strikethrough: false,
        obfuscated: false,
    };
    let ghost all = split(drop_first_char(object@), ","@);
    let mut i: usize = 0;
    assert(all.take(0) =~= Seq::<Seq<char>>::empty());
    while i < fields.len()
        invariant
            fields@.len() == all.len(),
            forall|k: int| 0 <= k < fields@.len() ==> #[trigger] fields@[k]@ == all[k],
            i <= fields@.len(),
            c.view() == apply_fields(plain_component(), all.take(i as int)),
        decreases fields@.len() - i,
    {
        apply_field_to(&mut c, fields[i].as_str());
        proof {
            assert(all.take(i + 1).drop_last() =~= all.take(i as int));
        }
        i = i + 1;
    }
    assert(all.take(i as int) =~= all);
    c
}

/// The styled pieces of a message of the day written as a flat JSON array
/// of text components.
pub fn parse_motd(motd: &str) -> (r: Vec<TextComponent>)
    ensures
        r@.len() == motd_objects(motd@).len(),
        forall|k: int| 0 <= k < r@.len() ==> #[trigger] r@[k].view() == component_of(motd_objects(motd@)[k]),
{
    let n = motd.unicode_len();
    let inner = if n >= 3 { motd.substring_char(1, n - 2) } else { "" };
    assert(inner@ =~= if motd@.len() >= 3 { motd@.subrange(1, motd@.len() - 2) } else { Seq::<char>::empty() }) by {
        if n < 3 {
            reveal_strlit("");
        }
    }
    let objects = split_str(inner, "},");
    let mut out: Vec<TextComponent> = Vec::new();
    let mut i: usize = 0;
    while i < objects.len()
        invariant
            objects@.len() == motd_objects(motd@).len(),
            forall|k: int| 0 <= k < objects@.len() ==> #[trigger] objects@[k]@ == motd_objects(motd@)[k],
            i <= objects@.len(),
            out@.len() == i,
            forall|k: int| 0 <= k < i ==> #[trigger] out@[k].view() == component_of(motd_objects(motd@)[k]),
        decreases objects@.len() - i,
    {
        let c = component_from(objects[i].as_str());
        out.push(c);
        i = i + 1;
    }
    out
}

} // verus!
