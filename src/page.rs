use vstd::prelude::*;
use crate::command::{Command, Locator, WebElement, element_key, element_key_for, joined_url};
use crate::error::Error;
use crate::json::{Json, first_position, find_field, get_str, lookup, string_field};

verus! {

/// The element that a lookup answered with: the member of `payload` under
/// the dialect's element key, when it is a string.
pub open spec fn element_of(legacy: bool, payload: Json) -> Option<String> {
    string_field(payload, element_key(legacy))
}

/// Reads the element handle out of the payload of a find command.
pub fn element_from(legacy: bool, payload: Json) -> (r: Result<WebElement, Error>)
    ensures
        match element_of(legacy, payload) {
            Some(id) => r == Ok::<WebElement, Error>(WebElement { id }),
            None => r == Err::<WebElement, Error>(Error::MalformedResponse(Some(payload))),
        },
{
    let id = match get_str(&payload, element_key_for(legacy)) {
        Some(id) => id.clone(),
        None => return Err(Error::MalformedResponse(Some(payload))),
    };
    Ok(WebElement { id })
}

/// Item `j` of `items` is the first that holds no element.
pub open spec fn first_non_element(legacy: bool, items: Seq<Json>, j: int) -> bool {
    0 <= j < items.len() && element_of(legacy, items[j]) is None && forall|i: int|
        0 <= i < j ==> (#[trigger] element_of(legacy, items[i])) is Some
}

/// `r` reads the payload of a find-all command: every item of the array
/// as an element, or else the first item that is none.
pub open spec fn elements_outcome(legacy: bool, payload: Json, r: Result<Vec<WebElement>, Error>) -> bool {
    match payload {
        Json::Array(items) => match r {
            Ok(v) => v@.len() == items@.len() && forall|i: int| 0 <= i < v@.len() ==> Some(
                (#[trigger] v@[i]).id,
            ) == element_of(legacy, items@[i]),
            Err(e) => exists|j: int| #[trigger] first_non_element(legacy, items@, j)
                && e == Error::MalformedResponse(Some(items@[j])),
        },
        _ => r == Err::<Vec<WebElement>, Error>(Error::MalformedResponse(Some(payload))),
    }
}

/// Reads the element handles out of the payload of a find-all command.
pub fn elements_from(legacy: bool, payload: Json) -> (r: Result<Vec<WebElement>, Error>)
    ensures
        elements_outcome(legacy, payload, r),
{
    let items = match payload {
        Json::Array(items) => items,
        other => return Err(Error::MalformedResponse(Some(other))),
    };
    let ghost all = items@;
    let mut rest = items;
    let mut found: Vec<WebElement> = Vec::new();
    while rest.len() > 0
        invariant
            payload matches Json::Array(x) && x@ == all,
            found@.len() + rest@.len() == all.len(),
            rest@ == all.subrange(found@.len() as int, all.len() as int),
            forall|i: int| 0 <= i < found@.len() ==> Some((#[trigger] found@[i]).id) == element_of(legacy, all[i]),
        decreases rest@.len(),
    {
        let ghost k = found@.len() as int;
        let item = rest.remove(0);
        assert(item == all[k]);
        match element_from(legacy, item) {
            Ok(e) => {
                found.push(e);
                assert(rest@ =~= all.subrange(found@.len() as int, all.len() as int));
            },
            Err(e) => {
                assert(element_of(legacy, all[k]) is None);
                assert forall|i: int| 0 <= i < k implies (#[trigger] element_of(legacy, all[i])) is Some by {
                    assert(Some(found@[i].id) == element_of(legacy, all[i]));
                }
                assert(first_non_element(legacy, all, k));
                return Err(e);
            },
        }
    }
    Ok(found)
}

/// `b` is argument `a` as a legacy server reads it: the first member under
/// the W3C element key is renamed to the legacy key, in place.
pub open spec fn legacy_argument(a: Json, b: Json) -> bool {
    match a {
        Json::Object(f) => if exists|i: int| first_position(f@, element_key(false), i) {
            let i = choose|i: int| first_position(f@, element_key(false), i);
            b matches Json::Object(g) && g@.len() == f@.len() && g@[i].0@ == element_key(true)
                && g@[i].1 == f@[i].1 && forall|j: int| 0 <= j < f@.len() && j != i ==> g@[j] == f@[j]
        } else {
            b == a
        },
        _ => b == a,
    }
}

/// Renames the W3C element key of one script argument to the legacy key.
fn legacy_argument_of(a: Json) -> (r: Json)
    ensures
        legacy_argument(a, r),
{
    match a {
        Json::Object(f) => {
            let ghost g = f;
            let mut f = f;
            match find_field(&f, element_key_for(false)) {
                Some(i) => {
                    let (_, v) = f.remove(i);
                    f.insert(i, (String::from_str(element_key_for(true)), v));
                    proof {
                        assert(first_position(g@, element_key(false), i as int));
                        let c = choose|c: int| first_position(g@, element_key(false), c);
                        if c < i {
                            assert(g@[c].0@ != element_key(false));
                        }
                        if i < c {
                            assert(g@[i as int].0@ != element_key(false));
                        }
                    }
                    Json::Object(f)
                },
                None => {
                    proof {
                        if exists|i: int| first_position(g@, element_key(false), i) {
                            let i = choose|i: int| first_position(g@, element_key(false), i);
                            crate::json::lemma_lookup_at_first(g@, element_key(false), i);
                        }
                    }
                    Json::Object(f)
                },
            }
        },
        other => other,
    }
}

/// Script arguments as the session's dialect reads them: in the legacy
/// dialect element references use the legacy key; in the W3C dialect
/// they are left alone.
pub fn fixup_elements(legacy: bool, args: &mut Vec<Json>)
    ensures
        final(args)@.len() == old(args)@.len(),
        !legacy ==> final(args)@ == old(args)@,
        legacy ==> forall|i: int| 0 <= i < old(args)@.len() ==> legacy_argument(old(args)@[i], #[trigger] final(args)@[i]),
{
    if !legacy {
        return;
    }
    let ghost all = args@;
    let mut fixed: Vec<Json> = Vec::new();
    while args.len() > 0
        invariant
            fixed@.len() + args@.len() == all.len(),
            args@ == all.subrange(fixed@.len() as int, all.len() as int),
            forall|i: int| 0 <= i < fixed@.len() ==> legacy_argument(all[i], #[trigger] fixed@[i]),
        decreases args@.len(),
    {
        let ghost k = fixed@.len() as int;
        let a = args.remove(0);
        assert(a == all[k]);
        fixed.push(legacy_argument_of(a));
        assert(args@ =~= all.subrange(fixed@.len() as int, all.len() as int));
    }
    *args = fixed;
}

/// The JSON reference to element `e` that scripts receive as an argument.
pub open spec fn element_reference(e: WebElement, j: Json) -> bool {
    j matches Json::Object(f) && f@.len() == 1 && f@[0].0@ == element_key(false) && f@[0].1 == Json::Str(e.id)
}

/// Builds the JSON reference to element `e`, under the W3C key.
pub fn element_json(e: WebElement) -> (r: Json)
    ensures
        element_reference(e, r),
{
    let mut f: Vec<(String, Json)> = Vec::new();
    f.push((String::from_str(element_key_for(false)), Json::Str(e.id)));
    Json::Object(f)
}

/// The command that runs `script` with `args`, whose element references
/// are written for the session's dialect.
pub fn script_command(legacy: bool, script: String, args: Vec<Json>) -> (r: Command)
    ensures
        r matches Command::ExecuteScript(s, a) && s == script && a@.len() == args@.len()
            && (!legacy ==> a@ == args@)
            && (legacy ==> forall|i: int| 0 <= i < args@.len() ==> legacy_argument(args@[i], #[trigger] a@[i])),
{
    let mut args = args;
    fixup_elements(legacy, &mut args);
    Command::ExecuteScript(script, args)
}

/// Reads a payload that is a string, or null for nothing.
pub fn optional_string(payload: Json) -> (r: Result<Option<String>, Error>)
    ensures
        match payload {
            Json::Str(s) => r == Ok::<Option<String>, Error>(Some(s)),
            Json::Null => r == Ok::<Option<String>, Error>(None),
            other => r == Err::<Option<String>, Error>(Error::MalformedResponse(Some(other))),
        },
{
    match payload {
        Json::Str(s) => Ok(Some(s)),
        Json::Null => Ok(None),
        other => Err(Error::MalformedResponse(Some(other))),
    }
}

/// Reads a payload that must be a string.
pub fn string_payload(payload: Json) -> (r: Result<String, Error>)
    ensures
        match payload {
            Json::Str(s) => r == Ok::<String, Error>(s),
            other => r == Err::<String, Error>(Error::MalformedResponse(Some(other))),
        },
{
    match payload {
        Json::Str(s) => Ok(s),
        other => Err(Error::MalformedResponse(Some(other))),
    }
}

/// Checks the payload of a click: null, or an empty object as some
/// drivers answer.
pub fn click_payload(payload: Json) -> (r: Result<(), Error>)
    ensures
        match payload {
            Json::Null => r is Ok,
            Json::Object(f) => if f@.len() == 0 {
                r is Ok
            } else {
                r == Err::<(), Error>(Error::MalformedResponse(Some(payload)))
            },
            other => r == Err::<(), Error>(Error::MalformedResponse(Some(other))),
        },
{
    match payload {
        Json::Null => Ok(()),
        Json::Object(f) => if f.len() == 0 {
            Ok(())
        } else {
            Err(Error::MalformedResponse(Some(Json::Object(f))))
        },
        other => Err(Error::MalformedResponse(Some(other))),
    }
}

/// Checks a payload that must be null.
pub fn null_payload(payload: Json) -> (r: Result<(), Error>)
    ensures
        match payload {
            Json::Null => r is Ok,
            other => r == Err::<(), Error>(Error::MalformedResponse(Some(other))),
        },
{
    match payload {
        Json::Null => Ok(()),
        other => Err(Error::MalformedResponse(Some(other))),
    }
}

/// The DOM property that holds an element's HTML: inner or outer.
pub fn html_property(inner: bool) -> (r: &'static str)
    ensures
        r@ == (if inner { "innerHTML"@ } else { "outerHTML"@ }),
{
    if inner {
        "innerHTML"
    } else {
        "outerHTML"
    }
}

/// The locator of the input named `name`.
pub fn input_named(name: &str) -> (r: Locator)
    ensures
        r matches Locator::Css(s) && s@ == "input[name='"@ + name@ + "']"@,
{
    let mut s = String::from_str("input[name='");
    s.append(name);
    s.append("']");
    Locator::Css(s)
}

/// The locator of a form's first submit button.
pub fn any_submit_button() -> (r: Locator)
    ensures
        r matches Locator::Css(s) && s@ == "input[type=submit],button[type=submit]"@,
{
    Locator::Css(String::from_str("input[type=submit],button[type=submit]"))
}

/// `s` written inside a double-quoted CSS string: each backslash and each
/// double quote is preceded by a backslash.
pub open spec fn css_escaped(s: Seq<char>) -> Seq<char>
    decreases s.len(),
{
    if s.len() == 0 {
        s
    } else {
        let c = s.last();
        let head = css_escaped(s.drop_last());
        if c == '\\' || c == '"' {
            head.push('\\').push(c)
        } else {
            head.push(c)
        }
    }
}

/// Writes `s` inside a double-quoted CSS string.
pub fn escape_css(s: &str) -> (r: String)
    ensures
        r@ == css_escaped(s@),
{
    let n = s.unicode_len();
    let mut out = String::new();
    let mut i: usize = 0;
    while i < n
        invariant
            n == s@.len(),
            i <= n,
            out@ == css_escaped(s@.subrange(0, i as int)),
        decreases n - i,
    {
        let c = s.get_char(i);
        proof {
            assert(s@.subrange(0, i + 1).drop_last() =~= s@.subrange(0, i as int));
        }
        let ghost before = out@;
        if c == '\\' {
            out.append("\\\\");
            proof {
                reveal_strlit("\\\\");
                assert(out@ =~= before.push('\\').push(c));
            }
        } else if c == '"' {
            out.append("\\\"");
            proof {
                reveal_strlit("\\\"");
                assert(out@ =~= before.push('\\').push(c));
            }
        } else {
            out.append(s.substring_char(i, i + 1));
            assert(out@ =~= before.push(c));
        }
        i = i + 1;
    }
    assert(s@.subrange(0, n as int) =~= s@);
    out
}

/// The locator of the submit button labelled `label`, case-insensitively.
pub fn submit_button_labelled(label: &str) -> (r: Locator)
    ensures
        r matches Locator::Css(s) && s@ == "input[type=submit][value=\""@ + css_escaped(label@)
            + "\" i],button[type=submit][value=\""@ + css_escaped(label@) + "\" i]"@,
{
    let e = escape_css(label);
    let mut s = String::from_str("input[type=submit][value=\"");
    s.append(e.as_str());
    s.append("\" i],button[type=submit][value=\"");
    s.append(e.as_str());
    s.append("\" i]");
    Locator::Css(s)
}

/// Resolves `reference` against the page URL `current`, as a browser
/// follows a link.
pub fn resolve(current: &str, reference: &str) -> (r: Result<String, Error>)
    ensures
        match joined_url(current@, reference@) {
            Some(u) => r matches Ok(s) && s@ == u,
            None => r matches Err(Error::BadUrl),
        },
{
    match crate::command::resolve_url(current, reference) {
        Some(u) => Ok(u),
        None => Err(Error::BadUrl),
    }
}

} // verus!
