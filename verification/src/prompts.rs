//! The questions the creation wizard asks, and a seeded port that answers them at random.

use vstd::prelude::*;

use crate::text::{chars_of, decimal, decimal_exec, in_list, join2, owned, str_eq, str_views, string_views};

verus! {

/// Why a wizard step stopped.
#[derive(Debug, PartialEq, Eq)]
pub enum WizardError {
    /// The user asked to return to the previous stage.
    Back,
    /// The user asked to keep the checkpoint and stop.
    SaveAndExit,
    /// A step failed for the stated reason.
    Message(String),
}

impl WizardError {
    /// A human-readable description of the error.
    pub fn message(&self) -> (r: String)
        ensures
            match self {
                WizardError::Message(m) => r@ == m@,
                WizardError::Back => r@ == "returned to the previous step"@,
                WizardError::SaveAndExit => r@ == "creation saved for later"@,
            },
    {
        match self {
            WizardError::Message(m) => m.clone(),
            WizardError::Back => owned("returned to the previous step"),
            WizardError::SaveAndExit => owned("creation saved for later"),
        }
    }
}

/// A failure with the given message.
pub fn failure(message: String) -> (r: WizardError)
    ensures
        r == WizardError::Message(message),
{
    WizardError::Message(message)
}

/// One answered question: its label, the choices offered (none for free
/// text), how many answers it asked for, and the answers given.
pub open spec fn exchange(label: Seq<char>, offered: Seq<Seq<char>>, count: nat, answers: Seq<Seq<char>>) -> (
    Seq<char>,
    Seq<Seq<char>>,
    nat,
    Seq<Seq<char>>,
) {
    (label, offered, count, answers)
}

/// The answer of an optional line of text as a list: empty when skipped.
pub open spec fn optional_answer(o: Option<String>) -> Seq<Seq<char>> {
    match o {
        Some(t) => seq![t@],
        None => Seq::<Seq<char>>::empty(),
    }
}

/// The questions the wizard asks. A terminal, a script or a random source answers them.
///
/// A port keeps the record of the questions it answered: each answered
/// question is added at the end, with the choices it was offered and the
/// answers it gave; a question that fails adds nothing.
pub trait PromptPort {
    /// The questions answered so far, in order.
    closed spec fn answered(&self) -> Seq<(Seq<char>, Seq<Seq<char>>, nat, Seq<Seq<char>>)> {
        Seq::empty()
    }

    /// A required line of text.
    fn prompt(&mut self, label: &str) -> (r: Result<String, WizardError>)
        ensures
            match r {
                Ok(t) => final(self).answered() == old(self).answered().push(exchange(label@, seq![], 1, seq![t@])),
                Err(_) => final(self).answered() == old(self).answered(),
            };

    /// An optional line of text.
    fn optional_prompt(&mut self, label: &str) -> (r: Result<Option<String>, WizardError>)
        ensures
            match r {
                Ok(o) => final(self).answered() == old(self).answered().push(
                    exchange(label@, seq![], 1, optional_answer(o)),
                ),
                Err(_) => final(self).answered() == old(self).answered(),
            };

    /// One of `choices`.
    fn choose_one(&mut self, label: &str, choices: &[&str]) -> (r: Result<String, WizardError>)
        ensures
            match r {
                Ok(t) => final(self).answered() == old(self).answered().push(
                    exchange(label@, str_views(choices@), 1, seq![t@]),
                ),
                Err(_) => final(self).answered() == old(self).answered(),
            };

    /// `count` different entries of `choices`.
    fn choose_set(&mut self, label: &str, choices: &[&str], count: usize) -> (r: Result<Vec<String>, WizardError>)
        ensures
            match r {
                Ok(v) => final(self).answered() == old(self).answered().push(
                    exchange(label@, str_views(choices@), count as nat, string_views(v@)),
                ),
                Err(_) => final(self).answered() == old(self).answered(),
            };

    /// `count` different entries of `choices`, shown with or without descriptions.
    fn choose_set_with_descriptions(
        &mut self,
        label: &str,
        choices: &[&str],
        count: usize,
        descriptions: bool,
    ) -> (r: Result<Vec<String>, WizardError>)
        ensures
            match r {
                Ok(v) => final(self).answered() == old(self).answered().push(
                    exchange(label@, str_views(choices@), count as nat, string_views(v@)),
                ),
                Err(_) => final(self).answered() == old(self).answered(),
            };

    /// Show a line of progress or review text.
    fn display(&mut self, text: &str)
        ensures
            final(self).answered() == old(self).answered();
}

/// Lexicographic order on characters, as strings compare by their UTF-8 bytes.
pub open spec fn lex_lt(a: Seq<char>, b: Seq<char>) -> bool
    decreases a.len(),
{
    if a.len() == 0 {
        b.len() > 0
    } else if b.len() == 0 {
        false
    } else if a[0] < b[0] {
        true
    } else if a[0] > b[0] {
        false
    } else {
        lex_lt(a.drop_first(), b.drop_first())
    }
}

pub proof fn lemma_lex_transitive(a: Seq<char>, b: Seq<char>, c: Seq<char>)
    requires
        lex_lt(a, b),
        lex_lt(b, c),
    ensures
        lex_lt(a, c),
    decreases a.len(),
{
    if a.len() > 0 && b.len() > 0 && c.len() > 0 && a[0] == b[0] && b[0] == c[0] {
        lemma_lex_transitive(a.drop_first(), b.drop_first(), c.drop_first());
    }
}

pub proof fn lemma_lex_total(a: Seq<char>, b: Seq<char>)
    ensures
        lex_lt(a, b) || lex_lt(b, a) || a == b,
        !(lex_lt(a, b) && lex_lt(b, a)),
        !lex_lt(a, a),
    decreases a.len(),
{
    if a.len() > 0 && b.len() > 0 && a[0] == b[0] {
        lemma_lex_total(a.drop_first(), b.drop_first());
        if a.drop_first() == b.drop_first() {
            assert(a =~= seq![a[0]] + a.drop_first());
            assert(b =~= seq![b[0]] + b.drop_first());
        }
    }
    if a.len() > 0 {
        lemma_lex_total(a.drop_first(), a.drop_first());
    }
    if a.len() == 0 && b.len() == 0 {
        assert(a =~= b);
    }
}

/// Whether `a` sorts strictly before `b`.
pub fn lex_less(a: &str, b: &str) -> (r: bool)
    ensures
        r == lex_lt(a@, b@),
{
    let x = chars_of(a);
    let y = chars_of(b);
    let mut i: usize = 0;
    assert(a@.subrange(0, a@.len() as int) =~= a@);
    assert(b@.subrange(0, b@.len() as int) =~= b@);
    while i < x.len() && i < y.len() && x[i] == y[i]
        invariant
            i <= x@.len(),
            i <= y@.len(),
            x@ == a@,
            y@ == b@,
            lex_lt(a@, b@) == lex_lt(a@.subrange(i as int, a@.len() as int), b@.subrange(i as int, b@.len() as int)),
        decreases x.len() - i,
    {
        let ghost sa = a@.subrange(i as int, a@.len() as int);
        let ghost sb = b@.subrange(i as int, b@.len() as int);
        assert(sa.drop_first() =~= a@.subrange(i as int + 1, a@.len() as int));
        assert(sb.drop_first() =~= b@.subrange(i as int + 1, b@.len() as int));
        i = i + 1;
    }
    let ghost sa = a@.subrange(i as int, a@.len() as int);
    let ghost sb = b@.subrange(i as int, b@.len() as int);
    if i == x.len() {
        assert(sa.len() == 0);
        i < y.len()
    } else if i == y.len() {
        false
    } else {
        assert(sa[0] == x@[i as int] && sb[0] == y@[i as int]);
        x[i] < y[i]
    }
}

/// `v` holds its entries in strictly increasing order, so none twice.
pub open spec fn strictly_sorted(v: Seq<String>) -> bool {
    forall|i: int, j: int| 0 <= i < j < v.len() ==> lex_lt(#[trigger] v[i]@, #[trigger] v[j]@)
}

/// The set of texts `v` holds.
pub open spec fn text_set(v: Seq<String>) -> Set<Seq<char>> {
    Set::new(|t: Seq<char>| exists|i: int| 0 <= i < v.len() && #[trigger] v[i]@ == t)
}

/// Insert `item` into a strictly sorted list, unless it is there already.
pub fn insert_sorted(v: &mut Vec<String>, item: String)
    requires
        strictly_sorted(old(v)@),
    ensures
        strictly_sorted(final(v)@),
        final(v)@.len() <= old(v)@.len() + 1,
        text_set(final(v)@) == text_set(old(v)@).insert(item@),
{
    let mut p: usize = 0;
    while p < v.len() && lex_less(v[p].as_str(), item.as_str())
        invariant
            p <= v@.len(),
            v@ == old(v)@,
            strictly_sorted(v@),
            forall|k: int| 0 <= k < p ==> lex_lt(#[trigger] v@[k]@, item@),
        decreases v.len() - p,
    {
        p = p + 1;
    }
    if p < v.len() && v[p] == item {
        assert(text_set(v@) =~= text_set(old(v)@).insert(item@)) by {
            assert(v@[p as int]@ == item@);
        }
        return;
    }
    proof {
        if p < v@.len() {
            lemma_lex_total(v@[p as int]@, item@);
            assert(lex_lt(item@, v@[p as int]@));
        }
    }
    let ghost before = v@;
    v.insert(p, item);
    proof {
        assert forall|i: int, j: int| 0 <= i < j < v@.len() implies lex_lt(#[trigger] v@[i]@, #[trigger] v@[j]@) by {
            if j < p {
                assert(v@[i] == before[i] && v@[j] == before[j]);
            } else if j == p {
                assert(v@[i] == before[i]);
            } else if i == p {
                assert(v@[j] == before[j - 1]);
                if j - 1 > p {
                    lemma_lex_transitive(item@, before[p as int]@, before[j - 1]@);
                }
            } else if i < p {
                assert(v@[i] == before[i]);
                assert(v@[j] == before[j - 1]);
                if i < j - 1 {
                } else {
                }
            } else {
                assert(v@[i] == before[i - 1]);
                assert(v@[j] == before[j - 1]);
            }
        }
        assert(text_set(v@) =~= text_set(before).insert(item@)) by {
            assert forall|t: Seq<char>| text_set(v@).contains(t) implies text_set(before).insert(item@).contains(t) by {
                let i = choose|i: int| 0 <= i < v@.len() && #[trigger] v@[i]@ == t;
                if i < p {
                    assert(v@[i] == before[i]);
                } else if i > p {
                    assert(v@[i] == before[i - 1]);
                }
            }
            assert forall|t: Seq<char>| text_set(before).insert(item@).contains(t) implies text_set(v@).contains(t) by {
                if t == item@ {
                    assert(v@[p as int]@ == t);
                } else {
                    let i = choose|i: int| 0 <= i < before.len() && #[trigger] before[i]@ == t;
                    if i < p {
                        assert(v@[i] == before[i]);
                    } else {
                        assert(v@[i + 1] == before[i]);
                    }
                }
            }
        }
    }
}

/// The entries of `items` as a strictly sorted list without repeats.
pub fn sorted_set(items: Vec<String>) -> (r: Vec<String>)
    ensures
        strictly_sorted(r@),
        text_set(r@) == text_set(items@),
{
    let mut out: Vec<String> = Vec::new();
    let mut i: usize = 0;
    assert(text_set(out@) =~= Set::empty());
    while i < items.len()
        invariant
            i <= items@.len(),
            strictly_sorted(out@),
            text_set(out@) == text_set(items@.subrange(0, i as int)),
        decreases items.len() - i,
    {
        let ghost before = out@;
        insert_sorted(&mut out, items[i].clone());
        assert(text_set(items@.subrange(0, i as int + 1)) =~= text_set(items@.subrange(0, i as int)).insert(
            items@[i as int]@,
        )) by {
            let s1 = items@.subrange(0, i as int + 1);
            let s0 = items@.subrange(0, i as int);
            assert forall|t: Seq<char>| text_set(s1).contains(t) implies text_set(s0).insert(items@[i as int]@).contains(t) by {
                let k = choose|k: int| 0 <= k < s1.len() && #[trigger] s1[k]@ == t;
                if k < i {
                    assert(s0[k] == s1[k]);
                }
            }
            assert forall|t: Seq<char>| text_set(s0).insert(items@[i as int]@).contains(t) implies text_set(s1).contains(t) by {
                if t == items@[i as int]@ {
                    assert(s1[i as int]@ == t);
                } else {
                    let k = choose|k: int| 0 <= k < s0.len() && #[trigger] s0[k]@ == t;
                    assert(s1[k] == s0[k]);
                }
            }
        }
        i = i + 1;
    }
    assert(items@.subrange(0, items@.len() as int) =~= items@);
    out
}


/// The multiplier of the port's linear congruential generator.
pub const LCG_MULTIPLIER: u64 = 6364136223846793005;

/// The generator state after one step.
pub open spec fn next_state(state: u64) -> u64 {
    vstd::wrapping::u64_specs::wrapping_add(vstd::wrapping::u64_specs::wrapping_mul(state, LCG_MULTIPLIER), 1u64)
}

/// The index in `0..length` drawn from a generator state.
pub open spec fn index_from(state: u64, length: usize) -> usize {
    ((state >> 32u64) as usize) % length
}

/// A request as the random port records it: whether one was made, and its value.
pub open spec fn request_flag(o: Option<Seq<char>>) -> Seq<char> {
    if o is Some {
        "requested"@
    } else {
        "open"@
    }
}

/// The value of a request, empty when none was made.
pub open spec fn request_value(o: Option<Seq<char>>) -> Seq<char> {
    match o {
        Some(v) => v,
        None => Seq::<char>::empty(),
    }
}

/// The first entry of the random port's record: the class, background and
/// species it was asked to use.
pub open spec fn requests_entry(
    class: Option<Seq<char>>,
    background: Option<Seq<char>>,
    species: Option<Seq<char>>,
) -> (Seq<char>, Seq<Seq<char>>, nat, Seq<Seq<char>>) {
    exchange(
        "Requested class, background and species"@,
        seq![request_flag(class), request_flag(background), request_flag(species)],
        0,
        seq![request_value(class), request_value(background), request_value(species)],
    )
}

/// An answer recorded under `label` honours the request for it.
pub open spec fn honours(
    entry: (Seq<char>, Seq<Seq<char>>, nat, Seq<Seq<char>>),
    label: Seq<char>,
    request: Option<Seq<char>>,
) -> bool {
    entry.0 == label && request is Some ==> entry.3 == seq![request->0]
}

/// A prompt port that answers from a seeded generator, honoring requested
/// class, background and species constraints.
pub struct RandomPromptPort {
    state: u64,
    log: Ghost<Seq<(Seq<char>, Seq<Seq<char>>, nat, Seq<Seq<char>>)>>,
    character_class: Option<String>,
    background: Option<String>,
    species: Option<String>,
}

/// Every entry of `v` is one of `choices`.
pub open spec fn all_offered(v: Seq<String>, choices: Seq<&str>) -> bool {
    forall|i: int| 0 <= i < v.len() ==> in_list(choices, #[trigger] v[i]@)
}

impl RandomPromptPort {
    /// The port's record starts with its requests, and every class, background
    /// and species it chose honours them.
    #[verifier::type_invariant]
    pub closed spec fn keeps_requests(self) -> bool {
        let log = self.log@;
        &&& log.len() > 0
        &&& log[0] == requests_entry(
            crate::text::opt_view(self.character_class),
            crate::text::opt_view(self.background),
            crate::text::opt_view(self.species),
        )
        &&& forall|k: int|
            0 < k < log.len() ==> honours(#[trigger] log[k], "Class"@, crate::text::opt_view(self.character_class))
                && honours(log[k], "Background"@, crate::text::opt_view(self.background)) && honours(
                log[k],
                "Species"@,
                crate::text::opt_view(self.species),
            )
    }

    /// What the invariant says through the record: it starts with the
    /// requests, and every class, background and species chosen since honours them.
    pub proof fn lemma_keeps_requests(port: &RandomPromptPort)
        requires
            port.keeps_requests(),
        ensures
            port.answered().len() > 0,
            port.answered()[0] == requests_entry(
                port.class_constraint(),
                port.background_constraint(),
                port.species_constraint(),
            ),
            forall|k: int|
                0 < k < port.answered().len() ==> honours(#[trigger] port.answered()[k], "Class"@, port.class_constraint())
                    && honours(port.answered()[k], "Background"@, port.background_constraint()) && honours(
                    port.answered()[k],
                    "Species"@,
                    port.species_constraint(),
                ),
    {
    }

    pub closed spec fn state_spec(&self) -> u64 {
        self.state
    }

    pub closed spec fn class_constraint(&self) -> Option<Seq<char>> {
        crate::text::opt_view(self.character_class)
    }

    pub closed spec fn background_constraint(&self) -> Option<Seq<char>> {
        crate::text::opt_view(self.background)
    }

    pub closed spec fn species_constraint(&self) -> Option<Seq<char>> {
        crate::text::opt_view(self.species)
    }

    /// A port seeded with `seed` and constrained to the requested values.
    pub fn new(seed: u64, character_class: Option<&str>, background: Option<&str>, species: Option<&str>) -> (r: Self)
        ensures
            r.state_spec() == seed,
            r.class_constraint() == match character_class {
                Some(c) => Some(c@),
                None => None::<Seq<char>>,
            },
            r.background_constraint() == match background {
                Some(b) => Some(b@),
                None => None::<Seq<char>>,
            },
            r.species_constraint() == match species {
                Some(s) => Some(s@),
                None => None::<Seq<char>>,
            },
    {
        let ghost requests = requests_entry(
            match character_class {
                Some(c) => Some(c@),
                None => None,
            },
            match background {
                Some(b) => Some(b@),
                None => None,
            },
            match species {
                Some(v) => Some(v@),
                None => None,
            },
        );
        RandomPromptPort {
            state: seed,
            log: Ghost(Seq::empty().push(requests)),
            character_class: match character_class {
                Some(c) => Some(owned(c)),
                None => None,
            },
            background: match background {
                Some(b) => Some(owned(b)),
                None => None,
            },
            species: match species {
                Some(s) => Some(owned(s)),
                None => None,
            },
        }
    }

    /// Advance the generator and draw an index below `length`.
    pub fn next_index(&mut self, length: usize) -> (r: usize)
        requires
            length > 0,
        ensures
            final(self).state_spec() == next_state(old(self).state_spec()),
            r == index_from(next_state(old(self).state_spec()), length),
            r < length,
            final(self).class_constraint() == old(self).class_constraint(),
            final(self).background_constraint() == old(self).background_constraint(),
            final(self).species_constraint() == old(self).species_constraint(),
            final(self).answered() == old(self).answered(),
    {
        proof {
            use_type_invariant(&*self);
        }
        let state = self.state.wrapping_mul(LCG_MULTIPLIER).wrapping_add(1);
        self.state = state;
        ((state >> 32) as usize) % length
    }

    fn choose_one_unrecorded(&mut self, label: &str, choices: &[&str]) -> (r: Result<String, WizardError>)
        ensures
            match r {
                Ok(s) => in_list(choices@, s@) || s@ == "Use the class suggested array"@,
                Err(_) => true,
            },
            final(self).answered() == old(self).answered(),
            final(self).class_constraint() == old(self).class_constraint(),
            final(self).background_constraint() == old(self).background_constraint(),
            final(self).species_constraint() == old(self).species_constraint(),
            r matches Ok(t) ==> honours(exchange(label@, Seq::empty(), 0, seq![t@]), "Class"@, old(self).class_constraint())
                && honours(exchange(label@, Seq::empty(), 0, seq![t@]), "Background"@, old(self).background_constraint())
                && honours(exchange(label@, Seq::empty(), 0, seq![t@]), "Species"@, old(self).species_constraint()),
    {
        proof {
            reveal_strlit("Class");
            reveal_strlit("Background");
            reveal_strlit("Species");
            assert("Background"@[0] != "Class"@[0] && "Species"@[0] != "Class"@[0] && "Species"@[0] != "Background"@[0]);
        }
        if str_eq(label, "Class") {
            let constraint = crate::text::clone_opt_string(&self.character_class);
            self.constrained_choice(label, choices, constraint)
        } else if str_eq(label, "Background") {
            let constraint = crate::text::clone_opt_string(&self.background);
            self.constrained_choice(label, choices, constraint)
        } else if str_eq(label, "Species") {
            let constraint = crate::text::clone_opt_string(&self.species);
            self.constrained_choice(label, choices, constraint)
        } else if str_eq(label, "Generate ability scores") {
            Ok(owned("Use the class suggested array"))
        } else {
            self.constrained_choice(label, choices, None)
        }
    }

    fn choose_set_unrecorded(&mut self, label: &str, choices: &[&str], count: usize) -> (r: Result<Vec<String>, WizardError>)
        ensures
            match r {
                Ok(v) => v@.len() == count && strictly_sorted(v@) && all_offered(v@, choices@),
                Err(_) => true,
            },
            final(self).answered() == old(self).answered(),
            final(self).class_constraint() == old(self).class_constraint(),
            final(self).background_constraint() == old(self).background_constraint(),
            final(self).species_constraint() == old(self).species_constraint(),
    {
        if count > choices.len() {
            let mut message = owned("random generation cannot select ");
            message.append(decimal_exec(count as u64).as_str());
            message.append(" ");
            message.append(label);
            return Err(WizardError::Message(message));
        }
        let mut selected: Vec<String> = Vec::new();
        let mut budget: u64 = u64::MAX;
        while selected.len() < count
            invariant
                count <= choices@.len(),
                selected@.len() <= count,
                strictly_sorted(selected@),
                all_offered(selected@, choices@),
                self.answered() == old(self).answered(),
                self.class_constraint() == old(self).class_constraint(),
                self.background_constraint() == old(self).background_constraint(),
                self.species_constraint() == old(self).species_constraint(),
            decreases budget,
        {
            if budget == 0 {
                return Err(WizardError::Message(join2("random generation found too few distinct ", label)));
            }
            budget = budget - 1;
            let k = self.next_index(choices.len());
            let ghost before = selected@;
            let item = owned(choices[k]);
            insert_sorted(&mut selected, item);
            proof {
                assert forall|i: int| 0 <= i < selected@.len() implies in_list(choices@, #[trigger] selected@[i]@) by {
                    let t = selected@[i]@;
                    assert(text_set(selected@).contains(t));
                    if t != choices@[k as int]@ {
                        assert(text_set(before).contains(t));
                        let j = choose|j: int| 0 <= j < before.len() && #[trigger] before[j]@ == t;
                        assert(in_list(choices@, before[j]@));
                    }
                }
            }
        }
        Ok(selected)
    }

    /// The requested value when there is one and it is offered; otherwise a random choice.
    fn constrained_choice(&mut self, label: &str, choices: &[&str], constraint: Option<String>) -> (r: Result<
        String,
        WizardError,
    >)
        ensures
            match r {
                Ok(s) => in_list(choices@, s@) && match constraint {
                    Some(c) => s@ == c@,
                    None => true,
                },
                Err(_) => match constraint {
                    Some(c) => !in_list(choices@, c@),
                    None => choices@.len() == 0,
                },
            },
       final(self).answered() == old(self).answered(),
            final(self).class_constraint() == old(self).class_constraint(),
            final(self).background_constraint() == old(self).background_constraint(),
            final(self).species_constraint() == old(self).species_constraint(),
    {
        match constraint {
            Some(value) => {
                if crate::text::list_contains(choices, value.as_str()) {
                    Ok(value)
                } else {
                    let mut message = owned("requested ");
                    message.append(label);
                    message.append(" is unavailable: ");
                    message.append(value.as_str());
                    Err(WizardError::Message(message))
                }
            },
            None => {
                if choices.len() == 0 {
                    return Err(WizardError::Message(join2("random generation has no choices for ", label)));
                }
                let k = self.next_index(choices.len());
                let chosen = owned(choices[k]);
                assert(choices@[k as int]@ == chosen@);
                Ok(chosen)
            },
        }
    }
}

/// The labels of the questions the random port answers with its requests.
fn is_request_label(label: &str) -> (r: bool)
    ensures
        r == (label@ == "Class"@ || label@ == "Background"@ || label@ == "Species"@),
{
    str_eq(label, "Class") || str_eq(label, "Background") || str_eq(label, "Species")
}

impl PromptPort for RandomPromptPort {
    closed spec fn answered(&self) -> Seq<(Seq<char>, Seq<Seq<char>>, nat, Seq<Seq<char>>)> {
        self.log@
    }

    fn prompt(&mut self, label: &str) -> (r: Result<String, WizardError>)
        ensures
            label@ == "Character name"@ ==> r is Ok,
    {
        proof {
            use_type_invariant(&*self);
            reveal_strlit("Character name");
            reveal_strlit("Class");
            reveal_strlit("Background");
            reveal_strlit("Species");
            assert("Character name"@[1] != "Class"@[1] && "Character name"@[0] != "Background"@[0]
                && "Character name"@[0] != "Species"@[0]);
        }
        if str_eq(label, "Character name") {
            let n = self.next_index(10000);
            let mut name = owned("Random Adventurer ");
            name.append(decimal_exec(n as u64).as_str());
            self.log = Ghost(self.log@.push(exchange(label@, seq![], 1, seq![name@])));
            return Ok(name);
        }
        Err(WizardError::Message(join2("random generation cannot answer prompt: ", label)))
    }

    fn optional_prompt(&mut self, label: &str) -> (r: Result<Option<String>, WizardError>)
        ensures
            label@ != "Class"@ && label@ != "Background"@ && label@ != "Species"@ ==> r == Ok::<
                Option<String>,
                WizardError,
            >(None),
    {
        proof {
            use_type_invariant(&*self);
        }
        if is_request_label(label) {
            return Err(WizardError::Message(join2("random generation cannot answer prompt: ", label)));
        }
        self.log = Ghost(self.log@.push(exchange(label@, seq![], 1, optional_answer(None))));
        Ok(None)
    }

    fn choose_one(&mut self, label: &str, choices: &[&str]) -> (r: Result<String, WizardError>)
        ensures
            match r {
                Ok(s) => in_list(choices@, s@) || s@ == "Use the class suggested array"@,
                Err(_) => true,
            },
    {
        proof {
            use_type_invariant(&*self);
        }
        let r = self.choose_one_unrecorded(label, choices);
        if let Ok(t) = &r {
            self.log = Ghost(self.log@.push(exchange(label@, str_views(choices@), 1, seq![t@])));
        }
        r
    }

    fn choose_set(&mut self, label: &str, choices: &[&str], count: usize) -> (r: Result<Vec<String>, WizardError>)
        ensures
            match r {
                Ok(v) => v@.len() == count && strictly_sorted(v@) && all_offered(v@, choices@),
                Err(_) => true,
            },
    {
        proof {
            use_type_invariant(&*self);
        }
        if is_request_label(label) {
            return Err(WizardError::Message(join2("random generation cannot select ", label)));
        }
        let r = self.choose_set_unrecorded(label, choices, count);
        if let Ok(v) = &r {
            self.log = Ghost(self.log@.push(exchange(label@, str_views(choices@), count as nat, string_views(v@))));
        }
        r
    }

    fn choose_set_with_descriptions(
        &mut self,
        label: &str,
        choices: &[&str],
        count: usize,
        descriptions: bool,
    ) -> (r: Result<Vec<String>, WizardError>)
        ensures
            match r {
                Ok(v) => v@.len() == count && strictly_sorted(v@) && all_offered(v@, choices@),
                Err(_) => true,
            },
    {
        self.choose_set(label, choices, count)
    }

    fn display(&mut self, text: &str) {
    }
}

/// A record of answered questions stays a prefix as questions are added.
pub proof fn lemma_prefix_push<T>(a: Seq<T>, b: Seq<T>, x: T)
    requires
        a.is_prefix_of(b),
    ensures
        a.is_prefix_of(b.push(x)),
{
    assert(b.push(x).subrange(0, a.len() as int) =~= b.subrange(0, a.len() as int));
}

/// Being a prefix is transitive.
pub proof fn lemma_prefix_trans<T>(a: Seq<T>, b: Seq<T>, c: Seq<T>)
    requires
        a.is_prefix_of(b),
        b.is_prefix_of(c),
    ensures
        a.is_prefix_of(c),
{
    assert(c.subrange(0, a.len() as int) =~= c.subrange(0, b.len() as int).subrange(0, a.len() as int));
}

/// A record that is a prefix before a question stays one after it, whether the
/// question added one entry or several.
pub proof fn lemma_grows<T>(h: Seq<T>, before: Seq<T>, after: Seq<T>)
    requires
        h.is_prefix_of(before),
        before.is_prefix_of(after) || (after.len() > 0 && after.drop_last() == before),
    ensures
        h.is_prefix_of(after),
{
    if before.is_prefix_of(after) {
        lemma_prefix_trans(h, before, after);
    } else {
        assert(after =~= before.push(after.last()));
        lemma_prefix_push(h, before, after.last());
    }
}

/// The record `after` keeps `before` as its beginning.
pub closed spec fn extends<T>(after: Seq<T>, before: Seq<T>) -> bool {
    before.is_prefix_of(after)
}

/// `extends` is being a prefix.
pub proof fn lemma_extends_is_prefix<T>(after: Seq<T>, before: Seq<T>)
    ensures
        extends(after, before) == before.is_prefix_of(after),
{
}

/// A record extends itself.
pub proof fn lemma_extends_itself<T>(a: Seq<T>)
    ensures
        extends(a, a),
{
    assert(a.subrange(0, a.len() as int) =~= a);
}

/// A record that extends `h` before a question still extends it after one.
pub proof fn lemma_extends_grows<T>(h: Seq<T>, before: Seq<T>, after: Seq<T>)
    requires
        extends(before, h),
        before.is_prefix_of(after) || (after.len() > 0 && after.drop_last() == before),
    ensures
        extends(after, h),
{
    lemma_grows(h, before, after);
}

} // verus!
