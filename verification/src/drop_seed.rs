use vstd::prelude::*;

use crate::text::{join, lemma_item_occurs_in_join, occurs_in, str_eq};

verus! {

/// A setup drop question: an id, the value conflict it probes, and the
/// question in each supported language.
#[derive(Debug, Clone, Copy, PartialEq, Eq)]
pub struct DropDefinition {
    pub id: &'static str,
    pub conflict_axis: &'static str,
    pub prompt_en: &'static str,
    pub prompt_ja: &'static str,
    pub prompt_fr: &'static str,
}

/// The question of a drop definition in a locale: Japanese for "ja", French
/// for "fr", English otherwise.
pub open spec fn drop_prompt(d: DropDefinition, locale: Seq<char>) -> Seq<char> {
    if locale == "ja"@ {
        d.prompt_ja@
    } else if locale == "fr"@ {
        d.prompt_fr@
    } else {
        d.prompt_en@
    }
}

impl DropDefinition {
    /// The question in the given locale.
    pub fn prompt_for_locale(self, locale: &str) -> (p: &'static str)
        ensures
            p@ == drop_prompt(self, locale@),
    {
        if str_eq(locale, "ja") {
            self.prompt_ja
        } else if str_eq(locale, "fr") {
            self.prompt_fr
        } else {
            self.prompt_en
        }
    }
}

// The ids, axes and questions of the drop definitions, one group per definition.
pub const FAMILY_TRIP_ID: &'static str = "family_trip_or_friends";
pub const FAMILY_TRIP_AXIS: &'static str = "loyalty_vs_obligation";
pub const FAMILY_TRIP_EN: &'static str = "If a family trip and a plan with close friends landed on the same day, which one would you protect first?";
pub const FAMILY_TRIP_JA: &'static str = "家族旅行と親しい友達との予定が同じ日に重なったら、まずどちらを優先する？";
pub const FAMILY_TRIP_FR: &'static str = "Si un voyage en famille et un plan avec des amis proches tombaient le meme jour, lequel protegerais-tu en premier ?";
pub const TRUTH_OR_PEACE_ID: &'static str = "truth_or_peace";
pub const TRUTH_OR_PEACE_AXIS: &'static str = "honesty_vs_harmony";
pub const TRUTH_OR_PEACE_EN: &'static str = "If telling the full truth would hurt the atmosphere but hiding it would feel dishonest, where do you draw the line?";
pub const TRUTH_OR_PEACE_JA: &'static str = "本当のことを言うと場の空気は悪くなるけど、隠すのも不誠実だと感じるとき、どこで線を引く？";
pub const TRUTH_OR_PEACE_FR: &'static str = "Si dire toute la verite abime l'ambiance mais que la cacher te semble malhonnete, ou traces-tu la ligne ?";
pub const SPEED_OR_CRAFT_ID: &'static str = "speed_or_craft";
pub const SPEED_OR_CRAFT_AXIS: &'static str = "speed_vs_quality";
pub const SPEED_OR_CRAFT_EN: &'static str = "When speed keeps everyone moving but careful work protects the result, which side do you betray last?";
pub const SPEED_OR_CRAFT_JA: &'static str = "スピードがみんなを前に進める一方で、丁寧さが結果を守るとしたら、最後まで裏切りたくないのはどっち？";
pub const SPEED_OR_CRAFT_FR: &'static str = "Quand la vitesse fait avancer tout le monde mais que le travail soigne protege le resultat, quel cote refuses-tu de trahir en dernier ?";
pub const SOLO_RECOVERY_ID: &'static str = "solo_recovery_or_being_reached";
pub const SOLO_RECOVERY_AXIS: &'static str = "autonomy_vs_care";
pub const SOLO_RECOVERY_EN: &'static str = "When you are worn down, what feels more important to protect first: space to recover alone or being reached by someone who notices?";
pub const SOLO_RECOVERY_JA: &'static str = "しんどいとき、先に守りたいのは一人で立て直す余白と、気づいて声をかけてもらえることのどっち？";
pub const SOLO_RECOVERY_FR: &'static str = "Quand tu es epuise, qu'est-ce qui te semble le plus important a proteger d'abord : l'espace pour te reconstruire seul ou le fait que quelqu'un te tende la main ?";
pub const FAIRNESS_ID: &'static str = "fairness_or_special_person";
pub const FAIRNESS_AXIS: &'static str = "fairness_vs_attachment";
pub const FAIRNESS_EN: &'static str = "If being fair to everyone clashes with protecting one irreplaceable person, which responsibility gets heavier for you?";
pub const FAIRNESS_JA: &'static str = "みんなに公平でいることと、替えのきかない一人を守ることがぶつかったら、あなたにとって重い責任はどっち？";
pub const FAIRNESS_FR: &'static str = "Si etre juste avec tout le monde entre en conflit avec proteger une personne irremplacable, quelle responsabilite pese le plus pour toi ?";

/// The setup drop questions, in the order they are offered.
pub open spec fn drop_definition_list() -> Seq<DropDefinition> {
    seq![
        DropDefinition {
            id: FAMILY_TRIP_ID,
            conflict_axis: FAMILY_TRIP_AXIS,
            prompt_en: FAMILY_TRIP_EN,
            prompt_ja: FAMILY_TRIP_JA,
            prompt_fr: FAMILY_TRIP_FR,
        },
        DropDefinition {
            id: TRUTH_OR_PEACE_ID,
            conflict_axis: TRUTH_OR_PEACE_AXIS,
            prompt_en: TRUTH_OR_PEACE_EN,
            prompt_ja: TRUTH_OR_PEACE_JA,
            prompt_fr: TRUTH_OR_PEACE_FR,
        },
        DropDefinition {
            id: SPEED_OR_CRAFT_ID,
            conflict_axis: SPEED_OR_CRAFT_AXIS,
            prompt_en: SPEED_OR_CRAFT_EN,
            prompt_ja: SPEED_OR_CRAFT_JA,
            prompt_fr: SPEED_OR_CRAFT_FR,
        },
        DropDefinition {
            id: SOLO_RECOVERY_ID,
            conflict_axis: SOLO_RECOVERY_AXIS,
            prompt_en: SOLO_RECOVERY_EN,
            prompt_ja: SOLO_RECOVERY_JA,
            prompt_fr: SOLO_RECOVERY_FR,
        },
        DropDefinition {
            id: FAIRNESS_ID,
            conflict_axis: FAIRNESS_AXIS,
            prompt_en: FAIRNESS_EN,
            prompt_ja: FAIRNESS_JA,
            prompt_fr: FAIRNESS_FR,
        },
    ]
}

/// The setup drop questions, in the order they are offered.
pub fn drop_definitions() -> (d: [DropDefinition; 5])
    ensures
        d@ == drop_definition_list(),
{
    let d = [
        DropDefinition {
            id: FAMILY_TRIP_ID,
            conflict_axis: FAMILY_TRIP_AXIS,
            prompt_en: FAMILY_TRIP_EN,
            prompt_ja: FAMILY_TRIP_JA,
            prompt_fr: FAMILY_TRIP_FR,
        },
        DropDefinition {
            id: TRUTH_OR_PEACE_ID,
            conflict_axis: TRUTH_OR_PEACE_AXIS,
            prompt_en: TRUTH_OR_PEACE_EN,
            prompt_ja: TRUTH_OR_PEACE_JA,
            prompt_fr: TRUTH_OR_PEACE_FR,
        },
        DropDefinition {
            id: SPEED_OR_CRAFT_ID,
            conflict_axis: SPEED_OR_CRAFT_AXIS,
            prompt_en: SPEED_OR_CRAFT_EN,
            prompt_ja: SPEED_OR_CRAFT_JA,
            prompt_fr: SPEED_OR_CRAFT_FR,
        },
        DropDefinition {
            id: SOLO_RECOVERY_ID,
            conflict_axis: SOLO_RECOVERY_AXIS,
            prompt_en: SOLO_RECOVERY_EN,
            prompt_ja: SOLO_RECOVERY_JA,
            prompt_fr: SOLO_RECOVERY_FR,
        },
        DropDefinition {
            id: FAIRNESS_ID,
            conflict_axis: FAIRNESS_AXIS,
            prompt_en: FAIRNESS_EN,
            prompt_ja: FAIRNESS_JA,
            prompt_fr: FAIRNESS_FR,
        },
    ];
    assert(d@ =~= drop_definition_list());
    d
}

/// The line for one drop definition: its id, axis, whether its id is among
/// the used ids, and its question in the locale.
pub open spec fn drop_line(d: DropDefinition, locale: Seq<char>, used: Seq<Seq<char>>) -> Seq<char> {
    "- id: "@ + d.id@ + " | axis: "@ + d.conflict_axis@ + " | status: "@ + (if used.contains(d.id@) {
        "used"@
    } else {
        "available"@
    }) + " | question: "@ + drop_prompt(d, locale)
}

/// One line per drop definition, in order, separated by newlines.
pub open spec fn drop_definitions_text(locale: Seq<char>, used: Seq<Seq<char>>) -> Seq<char> {
    join(drop_definition_list().map_values(|d: DropDefinition| drop_line(d, locale, used)), "\n"@)
}

/// Every definition's line is in the rendering, marked "used" exactly when its
/// id equals a used id at some position, and "available" otherwise.
pub proof fn law_drop_status_follows_membership(locale: Seq<char>, used: Seq<Seq<char>>, k: int)
    requires
        0 <= k < drop_definition_list().len(),
    ensures
        occurs_in(
            "- id: "@ + drop_definition_list()[k].id@ + " | axis: "@
                + drop_definition_list()[k].conflict_axis@ + " | status: "@ + (if exists|i: int|
                0 <= i < used.len() && used[i] == drop_definition_list()[k].id@ {
                "used"@
            } else {
                "available"@
            }) + " | question: "@ + drop_prompt(drop_definition_list()[k], locale),
            drop_definitions_text(locale, used),
        ),
{
    let lines = drop_definition_list().map_values(|d: DropDefinition| drop_line(d, locale, used));
    lemma_item_occurs_in_join(lines, "\n"@, k);
}

/// The rendering depends on which ids are used, not on their order or
/// repetition: two lists holding the same ids render alike.
pub proof fn law_drop_rendering_ignores_order_of_used_ids(
    locale: Seq<char>,
    used_a: Seq<Seq<char>>,
    used_b: Seq<Seq<char>>,
)
    requires
        forall|x: Seq<char>| used_a.contains(x) <==> used_b.contains(x),
    ensures
        drop_definitions_text(locale, used_a) == drop_definitions_text(locale, used_b),
{
    let la = drop_definition_list().map_values(|d: DropDefinition| drop_line(d, locale, used_a));
    let lb = drop_definition_list().map_values(|d: DropDefinition| drop_line(d, locale, used_b));
    assert forall|k: int| 0 <= k < la.len() implies la[k] == lb[k] by {
        let id = drop_definition_list()[k].id@;
        assert(used_a.contains(id) <==> used_b.contains(id));
    }
    assert(la =~= lb);
}

/// Whether `id` is among the used ids.
fn is_used(id: &str, used_drop_ids: &[String]) -> (u: bool)
    ensures
        u == crate::text::views_of(used_drop_ids@).contains(id@),
{
    let ghost used = crate::text::views_of(used_drop_ids@);
    let mut i: usize = 0;
    while i < used_drop_ids.len()
        invariant
            0 <= i <= used_drop_ids@.len(),
            used == crate::text::views_of(used_drop_ids@),
            forall|k: int| 0 <= k < i ==> used[k] != id@,
        decreases used_drop_ids@.len() - i,
    {
        if str_eq(used_drop_ids[i].as_str(), id) {
            assert(used[i as int] == id@);
            return true;
        }
        i += 1;
    }
    false
}

/// The drop definitions as lines for a prompt, each marked used or available.
pub fn render_drop_definitions_for_locale(locale: &str, used_drop_ids: &[String]) -> (s: String)
    ensures
        s@ == drop_definitions_text(locale@, crate::text::views_of(used_drop_ids@)),
{
    let ghost used = crate::text::views_of(used_drop_ids@);
    let definitions = drop_definitions();
    let mut lines: Vec<String> = Vec::new();
    let mut i: usize = 0;
    while i < 5
        invariant
            0 <= i <= 5,
            definitions@ == drop_definition_list(),
            used == crate::text::views_of(used_drop_ids@),
            crate::text::views_of(lines@) == drop_definition_list().map_values(
                |d: DropDefinition| drop_line(d, locale@, used),
            ).take(i as int),
        decreases 5 - i,
    {
        let definition = definitions[i];
        let mut line = String::from_str("- id: ");
        line.append(definition.id);
        line.append(" | axis: ");
        line.append(definition.conflict_axis);
        line.append(" | status: ");
        if is_used(definition.id, used_drop_ids) {
            line.append("used");
        } else {
            line.append("available");
        }
        line.append(" | question: ");
        line.append(definition.prompt_for_locale(locale));
        let ghost before = lines@;
        lines.push(line);
        proof {
            let all = drop_definition_list().map_values(|d: DropDefinition| drop_line(d, locale@, used));
            assert(lines@ =~= before.push(line));
            assert(crate::text::views_of(lines@) =~= crate::text::views_of(before).push(line@));
            assert(all.take(i + 1) =~= all.take(i as int).push(all[i as int]));
        }
        i += 1;
    }
    assert(drop_definition_list().map_values(|d: DropDefinition| drop_line(d, locale@, used)).take(5)
        =~= drop_definition_list().map_values(|d: DropDefinition| drop_line(d, locale@, used)));
    crate::text::join_strings(lines.as_slice(), "\n")
}

} // verus!
