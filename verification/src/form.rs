//! Login forms: the hidden fields of a login page, and the form that is
//! sent back with the user's credentials laid over them.

use vstd::prelude::*;
use crate::error::{AuthFailure, AuthFailureModel, ErrorModel, TeslaError};
use crate::text::same_text;

verus! {

/// One field of a form.
#[derive(Debug, Clone, PartialEq, Eq)]
pub struct FormField {
    pub name: String,
    pub value: String,
}

/// A form: fields in the order in which they were first set, no name
/// twice.
#[derive(Debug, Clone, PartialEq, Eq)]
pub struct Form {
    pub fields: Vec<FormField>,
}

impl View for Form {
    type V = Map<Seq<char>, Seq<char>>;

    /// The form as a mapping from field name to field value.
    open spec fn view(&self) -> Map<Seq<char>, Seq<char>> {
        Map::new(
            |name: Seq<char>| exists|i: int| self.holds_at(i, name),
            |name: Seq<char>| self.fields@[choose|i: int| self.holds_at(i, name)].value@,
        )
    }
}

impl Form {
    /// Whether the field at position `i` has the given name.
    pub open spec fn holds_at(&self, i: int, name: Seq<char>) -> bool {
        0 <= i < self.fields@.len() && self.fields@[i].name@ == name
    }

    /// No two fields share a name.
    pub open spec fn wf(&self) -> bool {
        forall|i: int, j: int|
            0 <= i < j < self.fields@.len() ==> self.fields@[i].name@ != self.fields@[j].name@
    }

    /// A form without fields.
    pub fn new() -> (form: Form)
        ensures
            form.wf(),
            form@ == Map::<Seq<char>, Seq<char>>::empty(),
            form.fields@.len() == 0,
    {
        let form = Form { fields: Vec::new() };
        assert(form@ =~= Map::<Seq<char>, Seq<char>>::empty());
        form
    }

    /// The number of fields.
    pub fn len(&self) -> (n: usize)
        ensures
            n == self.fields@.len(),
    {
        self.fields.len()
    }

    fn position(&self, name: &str) -> (at: Option<usize>)
        ensures
            match at {
                Some(i) => self.holds_at(i as int, name@),
                None => forall|i: int| !self.holds_at(i, name@),
            },
    {
        let mut i: usize = 0;
        while i < self.fields.len()
            invariant
                i <= self.fields@.len(),
                forall|k: int| 0 <= k < i ==> !self.holds_at(k, name@),
            decreases self.fields@.len() - i,
        {
            if same_text(self.fields[i].name.as_str(), name) {
                return Some(i);
            }
            i += 1;
        }
        None
    }

    /// The value of the field with the given name, if the form has one.
    pub fn get(&self, name: &str) -> (value: Option<String>)
        requires
            self.wf(),
        ensures
            match value {
                Some(v) => self@.contains_key(name@) && self@[name@] == v@,
                None => !self@.contains_key(name@),
            },
    {
        match self.position(name) {
            Some(i) => {
                proof {
                    self.lemma_value_at(i as int);
                }
                Some(self.fields[i].value.clone())
            },
            None => None,
        }
    }

    /// Sets the field `name` to `value`: a field of that name gets the new
    /// value in its place, a new name is added at the end.
    pub fn insert(&mut self, name: String, value: String)
        requires
            old(self).wf(),
        ensures
            final(self).wf(),
            final(self)@ == old(self)@.insert(name@, value@),
            final(self).fields@.len() == old(self).fields@.len() + (if old(self)@.contains_key(
                name@,
            ) {
                0int
            } else {
                1int
            }),
            forall|i: int|
                0 <= i < old(self).fields@.len() ==> (#[trigger] final(self).fields@[i]).name@
                    == old(self).fields@[i].name@,
            !old(self)@.contains_key(name@) ==> final(self).fields@.last().name@ == name@,
    {
        let ghost before = *self;
        match self.position(name.as_str()) {
            Some(i) => {
                self.fields[i] = FormField { name, value };
                proof {
                    assert(self.wf());
                    assert forall|key: Seq<char>|
                        self@.contains_key(key) <==> #[trigger] before@.insert(
                            name@,
                            value@,
                        ).contains_key(key) by {
                        if before@.contains_key(key) {
                            let k = choose|k: int| before.holds_at(k, key);
                            assert(self.holds_at(k, key));
                        }
                        if self@.contains_key(key) {
                            let k = choose|k: int| self.holds_at(k, key);
                            assert(before.holds_at(k, key));
                        }
                        if key == name@ {
                            assert(self.holds_at(i as int, key));
                        }
                    }
                    assert forall|key: Seq<char>| self@.contains_key(key) implies self@[key]
                        == before@.insert(name@, value@)[key] by {
                        let k = choose|k: int| self.holds_at(k, key);
                        self.lemma_value_at(k);
                        if key != name@ {
                            assert(before.holds_at(k, key));
                            before.lemma_value_at(k);
                        } else {
                            assert(k == i);
                        }
                    }
                    assert(self@ =~= before@.insert(name@, value@));
                }
            },
            None => {
                self.fields.push(FormField { name, value });
                proof {
                    let last = before.fields@.len() as int;
                    assert(self.wf()) by {
                        assert forall|i: int, j: int|
                            0 <= i < j < self.fields@.len() implies self.fields@[i].name@
                            != self.fields@[j].name@ by {
                            if j == last {
                                assert(!before.holds_at(i, name@));
                            }
                        }
                    }
                    assert forall|key: Seq<char>|
                        self@.contains_key(key) <==> #[trigger] before@.insert(
                            name@,
                            value@,
                        ).contains_key(key) by {
                        if before@.contains_key(key) {
                            let k = choose|k: int| before.holds_at(k, key);
                            assert(self.holds_at(k, key));
                        }
                        if self@.contains_key(key) {
                            let k = choose|k: int| self.holds_at(k, key);
                            if k != last {
                                assert(before.holds_at(k, key));
                            }
                        }
                        if key == name@ {
                            assert(self.holds_at(last, key));
                        }
                    }
                    assert forall|key: Seq<char>| self@.contains_key(key) implies self@[key]
                        == before@.insert(name@, value@)[key] by {
                        let k = choose|k: int| self.holds_at(k, key);
                        self.lemma_value_at(k);
                        if key != name@ {
                            assert(before.holds_at(k, key));
                            before.lemma_value_at(k);
                        } else {
                            if k != last {
                                assert(before.holds_at(k, key));
                            }
                        }
                    }
                    assert(self@ =~= before@.insert(name@, value@));
                }
            },
        }
    }

    /// In a form without repeated names, the mapping gives each field's
    /// name that field's value.
    pub proof fn lemma_value_at(&self, i: int)
        requires
            self.wf(),
            0 <= i < self.fields@.len(),
        ensures
            self@.contains_key(self.fields@[i].name@),
            self@[self.fields@[i].name@] == self.fields@[i].value@,
    {
        let name = self.fields@[i].name@;
        assert(self.holds_at(i, name));
        let k = choose|k: int| self.holds_at(k, name);
        assert(k == i) by {
            if k < i {
                assert(self.fields@[k].name@ != self.fields@[i].name@);
            }
            if i < k {
                assert(self.fields@[i].name@ != self.fields@[k].name@);
            }
        }
    }
}

/// A hidden input as it stands in a page: its `name` and its `value`,
/// each absent where the element lacks the attribute.
pub type HiddenInput = (Option<String>, Option<String>);

/// What a `HiddenInput` holds, as a mathematical value.
pub type HiddenInputModel = (Option<Seq<char>>, Option<Seq<char>>);

/// For each element of an HTML document that has the tag `element` and
/// whose attribute `filter_name` is `filter_value`, in document order, the
/// values of its attributes `first` and `second`, as the HTML parser of the
/// `select` crate reads the document.
pub uninterp spec fn html_attr_pairs(
    body: Seq<char>,
    element: Seq<char>,
    filter_name: Seq<char>,
    filter_value: Seq<char>,
    first: Seq<char>,
    second: Seq<char>,
) -> Seq<HiddenInputModel>;

/// `select::document::Document::from` parses the text, `Document::find`
/// walks the elements that match the tag and the attribute, and
/// `Node::attr` reads two attributes of each. The result depends on the
/// arguments alone; nothing more is claimed of it.
#[verifier::external_body]
fn select_attr_pairs(
    body: &str,
    element: &str,
    filter_name: &str,
    filter_value: &str,
    first: &str,
    second: &str,
) -> (found: Vec<HiddenInput>)
    ensures
        found.deep_view() == html_attr_pairs(
            body@,
            element@,
            filter_name@,
            filter_value@,
            first@,
            second@,
        ),
{
    select::document::Document::from(body)
        .find(select::predicate::And(
            select::predicate::Name(element),
            select::predicate::Attr(filter_name, filter_value),
        ))
        .map(|e| (e.attr(first).map(str::to_owned), e.attr(second).map(str::to_owned)))
        .collect()
}

/// Whether every hidden input has both its name and its value.
pub open spec fn hidden_complete(inputs: Seq<HiddenInputModel>) -> bool {
    forall|i: int| 0 <= i < inputs.len() ==> (#[trigger] inputs[i]).0 is Some && inputs[i].1 is Some
}

/// The mapping from name to value that complete hidden inputs make; where
/// a name occurs twice, the later value stands.
pub open spec fn hidden_map(inputs: Seq<HiddenInputModel>) -> Map<Seq<char>, Seq<char>>
    decreases inputs.len(),
{
    if inputs.len() == 0 {
        Map::empty()
    } else {
        hidden_map(inputs.drop_last()).insert(inputs.last().0->0, inputs.last().1->0)
    }
}

/// The hidden inputs of a login page.
pub open spec fn page_hidden_inputs(body: Seq<char>) -> Seq<HiddenInputModel> {
    html_attr_pairs(body, "input"@, "type"@, "hidden"@, "name"@, "value"@)
}

/// The form that the user's credentials make when laid over the scraped
/// fields: what the caller supplies wins over what the page held.
pub open spec fn with_credentials(
    scraped: Map<Seq<char>, Seq<char>>,
    email: Seq<char>,
    password: Seq<char>,
) -> Map<Seq<char>, Seq<char>> {
    scraped.insert("identity"@, email).insert("credential"@, password).insert(
        "privacy_consent"@,
        "1"@,
    )
}

/// Makes a form of hidden inputs. One that lacks its name or its value
/// makes the page malformed: no field is dropped in silence.
pub fn form_from_hidden(inputs: &Vec<HiddenInput>) -> (made: Result<Form, TeslaError>)
    ensures
        match made {
            Ok(form) => hidden_complete(inputs.deep_view()) && form.wf() && form@ == hidden_map(
                inputs.deep_view(),
            ),
            Err(e) => !hidden_complete(inputs.deep_view()) && e@ == ErrorModel::AuthError(
                AuthFailureModel::MalformedPage,
            ),
        },
{
    let ghost all = inputs.deep_view();
    let mut form = Form::new();
    let mut i: usize = 0;
    while i < inputs.len()
        invariant
            all == inputs.deep_view(),
            i <= inputs.len(),
            form.wf(),
            hidden_complete(all.take(i as int)),
            form@ == hidden_map(all.take(i as int)),
        decreases inputs.len() - i,
    {
        let input = &inputs[i];
        assert(all[i as int] == inputs@[i as int].deep_view());
        match (&input.0, &input.1) {
            (Some(name), Some(value)) => {
                form.insert(name.clone(), value.clone());
                proof {
                    let next = all.take(i + 1);
                    assert(next.drop_last() =~= all.take(i as int));
                    assert(next.last() == all[i as int]);
                    assert forall|k: int| 0 <= k < next.len() implies (#[trigger] next[k]).0 is Some
                        && next[k].1 is Some by {
                        if k < i {
                            assert(all.take(i as int)[k] == next[k]);
                        }
                    }
                }
            },
            _ => {
                assert(!(all[i as int].0 is Some && all[i as int].1 is Some));
                return Err(TeslaError::AuthError(AuthFailure::MalformedPage));
            },
        }
        i += 1;
    }
    assert(all.take(i as int) =~= all);
    Ok(form)
}

/// Reads the hidden fields of a login page into a form: every hidden
/// input of the page is in it, and a page with a hidden input that lacks
/// its name or its value is refused.
pub fn scrape_hidden_fields(body: &str) -> (scraped: Result<Form, TeslaError>)
    ensures
        match scraped {
            Ok(form) => hidden_complete(page_hidden_inputs(body@)) && form.wf() && form@
                == hidden_map(page_hidden_inputs(body@)),
            Err(e) => !hidden_complete(page_hidden_inputs(body@)) && e@ == ErrorModel::AuthError(
                AuthFailureModel::MalformedPage,
            ),
        },
{
    let inputs = select_attr_pairs(body, "input", "type", "hidden", "name", "value");
    form_from_hidden(&inputs)
}

/// Lays the user's credentials and the consent flag over a form.
pub fn overlay_credentials(form: &mut Form, email: &str, password: &str)
    requires
        old(form).wf(),
    ensures
        final(form).wf(),
        final(form)@ == with_credentials(old(form)@, email@, password@),
{
    form.insert("identity".to_owned(), email.to_owned());
    form.insert("credential".to_owned(), password.to_owned());
    form.insert("privacy_consent".to_owned(), "1".to_owned());
}

/// The form to send back for a login page: its hidden fields with the
/// user's credentials laid over them.
pub fn login_form(body: &str, email: &str, password: &str) -> (made: Result<Form, TeslaError>)
    ensures
        match made {
            Ok(form) => hidden_complete(page_hidden_inputs(body@)) && form.wf() && form@
                == with_credentials(hidden_map(page_hidden_inputs(body@)), email@, password@),
            Err(e) => !hidden_complete(page_hidden_inputs(body@)) && e@ == ErrorModel::AuthError(
                AuthFailureModel::MalformedPage,
            ),
        },
{
    match scrape_hidden_fields(body) {
        Ok(mut form) => {
            overlay_credentials(&mut form, email, password);
            Ok(form)
        },
        Err(e) => Err(e),
    }
}

/// Every name among complete hidden inputs is a key of their mapping, and
/// the value is that of the last input of that name.
pub proof fn lemma_hidden_map_has(inputs: Seq<HiddenInputModel>, i: int)
    requires
        hidden_complete(inputs),
        0 <= i < inputs.len(),
    ensures
        hidden_map(inputs).contains_key(inputs[i].0->0),
        (forall|j: int| i < j < inputs.len() ==> (#[trigger] inputs[j]).0 != inputs[i].0)
            ==> hidden_map(inputs)[inputs[i].0->0] == inputs[i].1->0,
    decreases inputs.len(),
{
    let shorter = inputs.drop_last();
    if i < inputs.len() - 1 {
        assert forall|k: int| 0 <= k < shorter.len() implies (#[trigger] shorter[k]).0 is Some
            && shorter[k].1 is Some by {
            assert(shorter[k] == inputs[k]);
        }
        lemma_hidden_map_has(shorter, i);
        assert(shorter[i] == inputs[i]);
        if forall|j: int| i < j < inputs.len() ==> (#[trigger] inputs[j]).0 != inputs[i].0 {
            assert(inputs[inputs.len() - 1].0 != inputs[i].0);
            assert forall|j: int| i < j < shorter.len() implies (#[trigger] shorter[j]).0
                != shorter[i].0 by {
                assert(shorter[j] == inputs[j]);
            }
        }
    }
}

/// What the caller supplies is never overridden by a scraped field, and a
/// scraped field of another name is sent on unmodified.
pub proof fn lemma_credentials_win(
    scraped: Map<Seq<char>, Seq<char>>,
    email: Seq<char>,
    password: Seq<char>,
)
    ensures
        with_credentials(scraped, email, password)["identity"@] == email,
        with_credentials(scraped, email, password)["credential"@] == password,
        with_credentials(scraped, email, password)["privacy_consent"@] == "1"@,
        forall|name: Seq<char>|
            scraped.contains_key(name) && name != "identity"@ && name != "credential"@ && name
                != "privacy_consent"@ ==> #[trigger] with_credentials(
                scraped,
                email,
                password,
            ).contains_key(name) && with_credentials(scraped, email, password)[name]
                == scraped[name],
{
    reveal_strlit("identity");
    reveal_strlit("credential");
    reveal_strlit("privacy_consent");
    assert("identity"@ != "credential"@) by {
        assert("identity"@.len() != "credential"@.len());
    }
    assert("identity"@ != "privacy_consent"@) by {
        assert("identity"@.len() != "privacy_consent"@.len());
    }
    assert("credential"@ != "privacy_consent"@) by {
        assert("credential"@.len() != "privacy_consent"@.len());
    }
}

} // verus!
