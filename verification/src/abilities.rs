//! Ability scores, their generation methods and background increases.

use vstd::prelude::*;

use crate::record::AbilityScores;
use crate::srd::{class_index, class_index_exec, point_buy_cost, point_buy_cost_exec, ABILITIES,
    STANDARD_ARRAY, SUGGESTED_ARRAYS, POINT_BUY_BUDGET};
use crate::text::{in_list, list_contains, owned, str_eq};

verus! {

/// The scores in the order of `ABILITIES`.
pub open spec fn score_seq(s: AbilityScores) -> Seq<u8> {
    seq![s.strength, s.dexterity, s.constitution, s.intelligence, s.wisdom, s.charisma]
}

/// Scores built from six values in the order of `ABILITIES`.
pub open spec fn scores_of(values: Seq<u8>) -> AbilityScores {
    AbilityScores {
        strength: values[0],
        dexterity: values[1],
        constitution: values[2],
        intelligence: values[3],
        wisdom: values[4],
        charisma: values[5],
    }
}

/// Floor of `(score - 10) / 2`.
pub open spec fn modifier_of(score: int) -> int {
    (score - 10) / 2
}

/// Scores built from six values in the order of `ABILITIES`.
pub fn scores_from(values: [u8; 6]) -> (r: AbilityScores)
    ensures
        r == scores_of(values@),
{
    AbilityScores {
        strength: values[0],
        dexterity: values[1],
        constitution: values[2],
        intelligence: values[3],
        wisdom: values[4],
        charisma: values[5],
    }
}

impl AbilityScores {
    /// The score of the ability whose lowercase name is `ability`.
    pub open spec fn score_of(self, ability: Seq<char>) -> Option<u8> {
        if ability == ABILITIES@[0]@ {
            Some(self.strength)
        } else if ability == ABILITIES@[1]@ {
            Some(self.dexterity)
        } else if ability == ABILITIES@[2]@ {
            Some(self.constitution)
        } else if ability == ABILITIES@[3]@ {
            Some(self.intelligence)
        } else if ability == ABILITIES@[4]@ {
            Some(self.wisdom)
        } else if ability == ABILITIES@[5]@ {
            Some(self.charisma)
        } else {
            None
        }
    }

    /// Every score lies between 1 and 20.
    pub open spec fn valid(self) -> bool {
        forall|i: int| 0 <= i < 6 ==> 1 <= #[trigger] score_seq(self)[i] <= 20
    }

    /// The score of the named ability.
    pub fn score(&self, ability: &str) -> (r: Option<u8>)
        ensures
            r == self.score_of(ability@),
    {
        if str_eq(ability, ABILITIES[0]) {
            Some(self.strength)
        } else if str_eq(ability, ABILITIES[1]) {
            Some(self.dexterity)
        } else if str_eq(ability, ABILITIES[2]) {
            Some(self.constitution)
        } else if str_eq(ability, ABILITIES[3]) {
            Some(self.intelligence)
        } else if str_eq(ability, ABILITIES[4]) {
            Some(self.wisdom)
        } else if str_eq(ability, ABILITIES[5]) {
            Some(self.charisma)
        } else {
            None
        }
    }

    /// The modifier of a score: `floor((score - 10) / 2)`.
    pub fn modifier_for(score: u8) -> (r: i8)
        ensures
            r as int == modifier_of(score as int),
    {
        if score >= 10 {
            ((score - 10) / 2) as i8
        } else {
            -(((11 - score) / 2) as i8)
        }
    }

    /// Check that every score lies between 1 and 20.
    pub fn validate(&self) -> (r: Result<(), String>)
        ensures
            r is Ok <==> self.valid(),
            r matches Err(e) ==> e@ == "ability scores must be between 1 and 20"@,
    {
        let values = [self.strength, self.dexterity, self.constitution, self.intelligence, self.wisdom, self.charisma];
        assert(values@ == score_seq(*self));
        let mut i: usize = 0;
        while i < 6
            invariant
                i <= 6,
                values@ == score_seq(*self),
                forall|k: int| 0 <= k < i ==> 1 <= #[trigger] score_seq(*self)[k] <= 20,
            decreases 6 - i,
        {
            if values[i] < 1 || values[i] > 20 {
                return Err(owned("ability scores must be between 1 and 20"));
            }
            i = i + 1;
        }
        Ok(())
    }
}

/// How a set of base scores was produced.
#[derive(Debug, Clone, Copy, PartialEq, Eq, Structural)]
pub enum AbilityGenerationMethod {
    SuggestedArray,
    StandardArray,
    Random,
    PointBuy,
}

/// Base scores together with the method that produced them.
#[derive(Debug, PartialEq, Eq)]
pub struct AbilityScoreGeneration {
    pub method: AbilityGenerationMethod,
    pub scores: AbilityScores,
    pub character_class: Option<String>,
}

/// The total point-buy cost of six scores, when each has a cost.
pub open spec fn point_buy_total(values: Seq<u8>) -> Option<int>
    decreases values.len(),
{
    if values.len() == 0 {
        Some(0)
    } else {
        match (point_buy_cost(values.last() as int), point_buy_total(values.drop_last())) {
            (Some(c), Some(t)) => Some(c + t),
            _ => None,
        }
    }
}

impl AbilityScoreGeneration {
    /// The scores are what the method can produce.
    pub open spec fn valid(self) -> bool {
        let v = score_seq(self.scores);
        match self.method {
            AbilityGenerationMethod::SuggestedArray => match self.character_class {
                Some(c) => match class_index(c@) {
                    Some(i) => v == SUGGESTED_ARRAYS@[i]@,
                    None => false,
                },
                None => false,
            },
            AbilityGenerationMethod::StandardArray => (forall|k: int|
                0 <= k < 6 ==> STANDARD_ARRAY@.contains(#[trigger] v[k])) && (forall|a: int, b: int|
                0 <= a < 6 && 0 <= b < 6 && a != b ==> #[trigger] v[a] != #[trigger] v[b]),
            AbilityGenerationMethod::Random => forall|k: int| 0 <= k < 6 ==> 3 <= #[trigger] v[k] <= 18,
            AbilityGenerationMethod::PointBuy => point_buy_total(v) == Some(POINT_BUY_BUDGET as int),
        }
    }

    /// Check that the scores are what the method can produce.
    pub fn validate(&self) -> (r: Result<(), String>)
        ensures
            r is Ok <==> self.valid(),
    {
        let values = [
            self.scores.strength,
            self.scores.dexterity,
            self.scores.constitution,
            self.scores.intelligence,
            self.scores.wisdom,
            self.scores.charisma,
        ];
        assert(values@ == score_seq(self.scores));
        let ok = match self.method {
            AbilityGenerationMethod::SuggestedArray => match &self.character_class {
                Some(c) => match class_index_exec(c.as_str()) {
                    Some(i) => {
                        let expected = SUGGESTED_ARRAYS[i];
                        let same = values[0] == expected[0] && values[1] == expected[1] && values[2]
                            == expected[2] && values[3] == expected[3] && values[4] == expected[4]
                            && values[5] == expected[5];
                        assert(same == (values@ == expected@)) by {
                            if same {
                                assert(values@ =~= expected@);
                            }
                        }
                        same
                    },
                    None => false,
                },
                None => false,
            },
            AbilityGenerationMethod::StandardArray => {
                let mut ok = true;
                let mut i: usize = 0;
                while i < 6
                    invariant
                        i <= 6,
                        values@ == score_seq(self.scores),
                        ok == ((forall|k: int| 0 <= k < i ==> STANDARD_ARRAY@.contains(#[trigger] values@[k]))
                            && (forall|a: int, b: int|
                            0 <= a < i && 0 <= b < 6 && a != b ==> #[trigger] values@[a] != #[trigger] values@[b])),
                    decreases 6 - i,
                {
                    let mut listed = false;
                    let mut j: usize = 0;
                    while j < 6
                        invariant
                            i < 6,
                            j <= 6,
                            listed == (exists|k: int| 0 <= k < j && STANDARD_ARRAY@[k] == values@[i as int]),
                        decreases 6 - j,
                    {
                        if STANDARD_ARRAY[j] == values[i] {
                            listed = true;
                        }
                        j = j + 1;
                    }
                    let mut unique = true;
                    let mut j: usize = 0;
                    while j < 6
                        invariant
                            i < 6,
                            j <= 6,
                            unique == (forall|b: int| 0 <= b < j && b != i ==> values@[i as int] != #[trigger] values@[b]),
                        decreases 6 - j,
                    {
                        if j != i && values[j] == values[i] {
                            unique = false;
                        }
                        j = j + 1;
                    }
                    ok = ok && listed && unique;
                    i = i + 1;
                }
                ok
            },
            AbilityGenerationMethod::Random => {
                let mut ok = true;
                let mut i: usize = 0;
                while i < 6
                    invariant
                        i <= 6,
                        values@ == score_seq(self.scores),
                        ok == (forall|k: int| 0 <= k < i ==> 3 <= #[trigger] values@[k] <= 18),
                    decreases 6 - i,
                {
                    ok = ok && 3 <= values[i] && values[i] <= 18;
                    i = i + 1;
                }
                ok
            },
            AbilityGenerationMethod::PointBuy => {
                let mut total: u8 = 0;
                let mut priced = true;
                let mut i: usize = 0;
                while i < 6
                    invariant
                        i <= 6,
                        values@ == score_seq(self.scores),
                        total <= 9 * i,
                        priced == (point_buy_total(values@.subrange(0, i as int)) is Some),
                        priced ==> point_buy_total(values@.subrange(0, i as int)) == Some(total as int),
                    decreases 6 - i,
                {
                    assert(values@.subrange(0, i as int + 1).drop_last() =~= values@.subrange(0, i as int));
                    match point_buy_cost_exec(values[i]) {
                        Some(c) => {
                            total = total + c;
                        },
                        None => {
                            priced = false;
                        },
                    }
                    i = i + 1;
                }
                assert(values@.subrange(0, 6) =~= values@);
                priced && total == POINT_BUY_BUDGET
            },
        };
        if ok {
            Ok(())
        } else {
            Err(owned("ability scores do not match the chosen generation method"))
        }
    }
}

/// A background's ability increases applied to base scores.
#[derive(Debug, PartialEq, Eq)]
pub struct BackgroundAbilityAdjustment {
    pub background: String,
    pub base_scores: AbilityScores,
    pub increases: Vec<(String, u8)>,
}

/// The total increase that `increases` gives the named ability.
pub open spec fn increase_for(increases: Seq<(String, u8)>, ability: Seq<char>) -> int
    decreases increases.len(),
{
    if increases.len() == 0 {
        0
    } else {
        increase_for(increases.drop_last(), ability) + if increases.last().0@ == ability {
            increases.last().1 as int
        } else {
            0
        }
    }
}

pub proof fn lemma_increase_prefix(increases: Seq<(String, u8)>, ability: Seq<char>, k: int)
    requires
        0 <= k <= increases.len(),
    ensures
        increase_for(increases.subrange(0, k), ability) <= increase_for(increases, ability),
        increase_for(increases.subrange(0, k), ability) >= 0,
    decreases increases.len(),
{
    if k < increases.len() {
        lemma_increase_prefix(increases.drop_last(), ability, k);
        assert(increases.drop_last().subrange(0, k) =~= increases.subrange(0, k));
    } else {
        assert(increases.subrange(0, k) =~= increases);
        lemma_increase_nonnegative(increases, ability);
    }
}

pub proof fn lemma_increase_nonnegative(increases: Seq<(String, u8)>, ability: Seq<char>)
    ensures
        increase_for(increases, ability) >= 0,
    decreases increases.len(),
{
    if increases.len() > 0 {
        lemma_increase_nonnegative(increases.drop_last(), ability);
    }
}

/// The increases are `+2` and `+1` to two different listed abilities, or `+1` to three.
pub open spec fn increases_shape(increases: Seq<(String, u8)>, abilities: Seq<&str>) -> bool {
    &&& forall|k: int| 0 <= k < increases.len() ==> in_list(abilities, #[trigger] increases[k].0@)
    &&& forall|a: int, b: int|
        0 <= a < increases.len() && 0 <= b < increases.len() && a != b ==> #[trigger] increases[a].0@
            != #[trigger] increases[b].0@
    &&& ((increases.len() == 2 && ((increases[0].1 == 2 && increases[1].1 == 1) || (increases[0].1 == 1
        && increases[1].1 == 2))) || (increases.len() == 3 && forall|k: int|
        0 <= k < 3 ==> #[trigger] increases[k].1 == 1))
}

/// The adjusted scores, in the order of `ABILITIES`.
pub open spec fn adjusted_seq(base: AbilityScores, increases: Seq<(String, u8)>) -> Seq<int> {
    Seq::new(6, |i: int| score_seq(base)[i] as int + increase_for(increases, ABILITIES@[i]@))
}

impl BackgroundAbilityAdjustment {
    /// The adjustment is legal for a background granting `abilities` and keeps every score at most 20.
    pub open spec fn valid_for(self, abilities: Seq<&str>) -> bool {
        &&& increases_shape(self.increases@, abilities)
        &&& forall|i: int| 0 <= i < 6 ==> #[trigger] adjusted_seq(self.base_scores, self.increases@)[i] <= 20
    }

    /// Apply the increases to the base scores.
    pub fn adjusted_scores_for(&self, abilities: &[&str]) -> (r: Result<AbilityScores, String>)
        ensures
            match r {
                Ok(s) => self.valid_for(abilities@) && score_seq(s).map_values(|v: u8| v as int)
                    == adjusted_seq(self.base_scores, self.increases@),
                Err(_) => !self.valid_for(abilities@),
            },
    {
        let n = self.increases.len();
        let mut shape = n == 2 || n == 3;
        let mut i: usize = 0;
        while i < n
            invariant
                n == self.increases@.len(),
                i <= n,
                shape ==> (forall|k: int| 0 <= k < i ==> in_list(abilities@, #[trigger] self.increases@[k].0@)),
                shape ==> (forall|a: int, b: int|
                    0 <= a < i && 0 <= b < n && a != b ==> #[trigger] self.increases@[a].0@
                        != #[trigger] self.increases@[b].0@),
                (n == 2 || n == 3) || !shape,
                !shape ==> !increases_shape(self.increases@, abilities@),
            decreases n - i,
        {
            if !list_contains(abilities, self.increases[i].0.as_str()) {
                shape = false;
            }
            let mut j: usize = 0;
            while j < n
                invariant
                    n == self.increases@.len(),
                    i < n,
                    j <= n,
                    shape ==> (forall|k: int| 0 <= k <= i ==> in_list(abilities@, #[trigger] self.increases@[k].0@)),
                    shape ==> (forall|a: int, b: int|
                        0 <= a < i && 0 <= b < n && a != b ==> #[trigger] self.increases@[a].0@
                            != #[trigger] self.increases@[b].0@),
                    shape ==> (forall|b: int| 0 <= b < j && b != i ==> self.increases@[i as int].0@
                        != #[trigger] self.increases@[b].0@),
                    !shape ==> !increases_shape(self.increases@, abilities@),
                    (n == 2 || n == 3) || !shape,
                decreases n - j,
            {
                if j != i && str_eq(self.increases[i].0.as_str(), self.increases[j].0.as_str()) {
                    shape = false;
                }
                j = j + 1;
            }
            i = i + 1;
        }
        if shape {
            if n == 2 {
                let a = self.increases[0].1;
                let b = self.increases[1].1;
                shape = (a == 2 && b == 1) || (a == 1 && b == 2);
            } else {
                shape = self.increases[0].1 == 1 && self.increases[1].1 == 1 && self.increases[2].1 == 1;
                assert(shape == (forall|k: int| 0 <= k < 3 ==> #[trigger] self.increases@[k].1 == 1));
            }
        }
        if !shape {
            return Err(owned("invalid background ability increases"));
        }
        let base = [
            self.base_scores.strength,
            self.base_scores.dexterity,
            self.base_scores.constitution,
            self.base_scores.intelligence,
            self.base_scores.wisdom,
            self.base_scores.charisma,
        ];
        let mut out: [u8; 6] = base;
        let ghost adjusted = adjusted_seq(self.base_scores, self.increases@);
        let mut a: usize = 0;
        while a < 6
            invariant
                a <= 6,
                n == self.increases@.len(),
                increases_shape(self.increases@, abilities@),
                base@ == score_seq(self.base_scores),
                adjusted == adjusted_seq(self.base_scores, self.increases@),
                out@.len() == 6,
                forall|k: int| 0 <= k < a ==> #[trigger] out@[k] as int == adjusted[k] && adjusted[k] <= 20,
            decreases 6 - a,
        {
            let mut value: u8 = base[a];
            if value > 20 {
                proof {
                    lemma_increase_nonnegative(self.increases@, ABILITIES@[a as int]@);
                    assert(adjusted[a as int] > 20);
                }
                return Err(owned("background ability increases raise a score above 20"));
            }
            assert(self.increases@.subrange(0, 0) =~= Seq::<(String, u8)>::empty());
            let mut k: usize = 0;
            while k < n
                invariant
                    n == self.increases@.len(),
                    adjusted == adjusted_seq(self.base_scores, self.increases@),
                    a < 6,
                    k <= n,
                    base@ == score_seq(self.base_scores),
                    value as int == base@[a as int] as int + increase_for(self.increases@.subrange(0, k as int), ABILITIES@[a as int]@),
                    value <= 20,
                decreases n - k,
            {
                assert(self.increases@.subrange(0, k as int + 1).drop_last() =~= self.increases@.subrange(0, k as int));
                if str_eq(self.increases[k].0.as_str(), ABILITIES[a]) {
                    let add = self.increases[k].1;
                    if add > 20 || value > 20 - add {
                        proof {
                            lemma_increase_prefix(self.increases@, ABILITIES@[a as int]@, k as int + 1);
                            assert(adjusted[a as int] > 20);
                        }
                        return Err(owned("background ability increases raise a score above 20"));
                    }
                    value = value + add;
                }
                k = k + 1;
            }
            assert(self.increases@.subrange(0, n as int) =~= self.increases@);
            out[a] = value;
            a = a + 1;
        }
        let result = scores_from(out);
        assert(score_seq(result).map_values(|v: u8| v as int) =~= adjusted);
        Ok(result)
    }
}

} // verus!
