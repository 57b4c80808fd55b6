use vstd::prelude::*;

verus! {

/// The overall tone of a Pair / Topic Talk.
#[derive(Debug, Clone, Copy, PartialEq, Eq, Structural)]
pub enum PairTopicTone {
    Funny,
    CasualValues,
    Relationship,
    WorkDev,
    SeriousReflective,
}

/// The kind of move a Shadow makes on one turn of a Topic Talk.
#[derive(Debug, Clone, Copy, PartialEq, Eq, Structural)]
pub enum PairTurnMove {
    Riff,
    AbsurdEscalation,
    PlayfulCallout,
    WeirdHypothesis,
    Callback,
    MicroScene,
    HotTake,
    SidewaysQuestion,
    SoftRoast,
    ChaosOption,
    GroundedPunchline,
    EmotionalSnap,
    HandoffQuestion,
    LightPressureTest,
    SharedLanding,
}

/// What one turn of a Topic Talk should do.
#[derive(Debug, Clone, Copy, PartialEq, Eq, Structural)]
pub struct PairTurnDirective {
    pub tone: PairTopicTone,
    pub move_kind: PairTurnMove,
    pub turn_index: usize,
    pub total_turns: usize,
}

// ── Specification ───────────────────────────────────────────────────────────

/// The display label of a tone.
pub open spec fn tone_label(tone: PairTopicTone) -> Seq<char> {
    match tone {
        PairTopicTone::Funny => "Funny"@,
        PairTopicTone::CasualValues => "Casual values"@,
        PairTopicTone::Relationship => "Relationship"@,
        PairTopicTone::WorkDev => "Work/dev"@,
        PairTopicTone::SeriousReflective => "Serious reflective"@,
    }
}

/// Whether `turn` is the last turn (or beyond it) of a talk of `total` turns.
pub open spec fn is_final_turn(turn: int, total: int) -> bool {
    turn + 1 >= total
}

/// The move a tone calls for on a turn that is not the last one.
pub open spec fn move_before_landing(tone: PairTopicTone, turn: int) -> PairTurnMove {
    match tone {
        PairTopicTone::Funny => if turn <= 1 {
            PairTurnMove::MicroScene
        } else if turn == 2 {
            PairTurnMove::Riff
        } else if turn == 3 {
            PairTurnMove::ChaosOption
        } else if turn == 4 {
            PairTurnMove::AbsurdEscalation
        } else {
            PairTurnMove::GroundedPunchline
        },
        PairTopicTone::CasualValues => if turn <= 1 {
            PairTurnMove::MicroScene
        } else if turn == 2 {
            PairTurnMove::EmotionalSnap
        } else if turn == 3 {
            PairTurnMove::SidewaysQuestion
        } else if turn == 4 {
            PairTurnMove::LightPressureTest
        } else {
            PairTurnMove::HandoffQuestion
        },
        PairTopicTone::Relationship => if turn <= 1 {
            PairTurnMove::PlayfulCallout
        } else if turn == 2 {
            PairTurnMove::SidewaysQuestion
        } else if turn == 3 {
            PairTurnMove::EmotionalSnap
        } else if turn == 4 {
            PairTurnMove::SoftRoast
        } else {
            PairTurnMove::HandoffQuestion
        },
        PairTopicTone::WorkDev => if turn <= 1 {
            PairTurnMove::HotTake
        } else if turn == 2 {
            PairTurnMove::MicroScene
        } else if turn == 3 {
            PairTurnMove::GroundedPunchline
        } else if turn == 4 {
            PairTurnMove::WeirdHypothesis
        } else {
            PairTurnMove::HandoffQuestion
        },
        PairTopicTone::SeriousReflective => if turn <= 1 {
            PairTurnMove::MicroScene
        } else if turn == 2 {
            PairTurnMove::HotTake
        } else if turn == 3 {
            PairTurnMove::SidewaysQuestion
        } else if turn == 4 {
            PairTurnMove::Callback
        } else {
            PairTurnMove::HandoffQuestion
        },
    }
}

/// The directive for a turn: the last turn lands, earlier turns follow the
/// tone's sequence of moves.
pub open spec fn directive_for(tone: PairTopicTone, turn: usize, total: usize) -> PairTurnDirective {
    PairTurnDirective {
        tone: tone,
        move_kind: if is_final_turn(turn as int, total as int) {
            PairTurnMove::SharedLanding
        } else {
            move_before_landing(tone, turn as int)
        },
        turn_index: turn,
        total_turns: total,
    }
}

/// The display label of a move.
pub open spec fn move_label(m: PairTurnMove) -> Seq<char> {
    match m {
        PairTurnMove::Riff => "Riff"@,
        PairTurnMove::AbsurdEscalation => "Absurd escalation"@,
        PairTurnMove::PlayfulCallout => "Playful callout"@,
        PairTurnMove::WeirdHypothesis => "Weird hypothesis"@,
        PairTurnMove::Callback => "Callback"@,
        PairTurnMove::MicroScene => "Micro scene"@,
        PairTurnMove::HotTake => "Hot take"@,
        PairTurnMove::SidewaysQuestion => "Sideways question"@,
        PairTurnMove::SoftRoast => "Soft roast"@,
        PairTurnMove::ChaosOption => "Chaos option"@,
        PairTurnMove::GroundedPunchline => "Grounded punchline"@,
        PairTurnMove::EmotionalSnap => "Emotional snap"@,
        PairTurnMove::HandoffQuestion => "Handoff question"@,
        PairTurnMove::LightPressureTest => "Light pressure test"@,
        PairTurnMove::SharedLanding => "Shared landing"@,
    }
}

/// The instruction text of a move.
pub open spec fn move_instruction(m: PairTurnMove) -> Seq<char> {
    match m {
        PairTurnMove::Riff => "build directly on the other Shadow's idea"@,
        PairTurnMove::AbsurdEscalation => "push the shared idea one strange step further"@,
        PairTurnMove::PlayfulCallout => "lightly call out the other Shadow's hidden motive"@,
        PairTurnMove::WeirdHypothesis => "create a strange but interesting hypothesis"@,
        PairTurnMove::Callback => "bring back an earlier phrase, image, or scene"@,
        PairTurnMove::MicroScene => "make a small concrete scene the other Shadow can grab"@,
        PairTurnMove::HotTake => "say a rough but memorable opinion"@,
        PairTurnMove::SidewaysQuestion => "ask from an unexpected angle"@,
        PairTurnMove::SoftRoast => "tease the other Shadow lightly without derailing"@,
        PairTurnMove::ChaosOption => "offer the weirdest useful option"@,
        PairTurnMove::GroundedPunchline => "turn a wild idea into a practical or dry punchline"@,
        PairTurnMove::EmotionalSnap => "show a brief strong feeling, then leave room for reaction"@,
        PairTurnMove::HandoffQuestion => "end with a small question or unfinished idea that slightly challenges or shifts the premise"@,
        PairTurnMove::LightPressureTest => "gently test the assumption while keeping the thread alive"@,
        PairTurnMove::SharedLanding => "react to the previous line and leave one concrete final image for the result to pick up"@,
    }
}

/// The phase label of a directive's turn.
pub open spec fn phase_of(turn: int, total: int) -> Seq<char> {
    if turn == 0 {
        "opening spark"@
    } else if turn + 1 >= total {
        "final landing"@
    } else if turn + 2 >= total {
        "landing approach"@
    } else {
        "continuation"@
    }
}

/// The transition note for the first message of a Topic Talk.
pub open spec fn initial_message_transition_note() -> Seq<char> {
    "Use a plain natural opening only if it helps the message feel conversational. Treat the user instruction as the speaker's own reason for writing now, not as an assignment from someone else. Create a sendable message with a concrete angle, opinion, emotional reaction, or small social detail from the instruction. Do not explain why the instruction started. Shape the wording so it can land naturally for the recipient."@
}

/// The transition note for handing a finished Topic Talk back to normal pair chat.
pub open spec fn handoff_transition_note() -> Seq<char> {
    "For this next message only, use the completed Topic Talk result as light background for the original owner. Briefly acknowledge it only if it helps the sendable message feel natural, then return to what the original owner can say to the recipient now. Do not keep discussing the completed topic."@
}

// ── Laws ────────────────────────────────────────────────────────────────────

/// The last turn of a talk always lands, whatever the tone, and the directive
/// keeps the tone and position it was made for.
pub proof fn law_final_turn_lands(tone: PairTopicTone, turn: usize, total: usize)
    requires
        turn + 1 >= total,
    ensures
        directive_for(tone, turn, total).move_kind == PairTurnMove::SharedLanding,
        directive_for(tone, turn, total).tone == tone,
        directive_for(tone, turn, total).turn_index == turn,
        directive_for(tone, turn, total).total_turns == total,
{
}

/// Only the last turn lands: earlier turns never get the landing move.
pub proof fn law_only_final_turn_lands(tone: PairTopicTone, turn: usize, total: usize)
    requires
        turn + 1 < total,
    ensures
        directive_for(tone, turn, total).move_kind != PairTurnMove::SharedLanding,
{
}

/// Before the last turn, the move depends on the tone and the turn alone,
/// not on how long the talk is.
pub proof fn law_move_independent_of_length(
    tone: PairTopicTone,
    turn: usize,
    total_a: usize,
    total_b: usize,
)
    requires
        turn + 1 < total_a,
        turn + 1 < total_b,
    ensures
        directive_for(tone, turn, total_a).move_kind == directive_for(
            tone,
            turn,
            total_b,
        ).move_kind,
{
}

/// A relationship talk never asks for a weird hypothesis.
pub proof fn law_relationship_avoids_weird_hypothesis(turn: usize, total: usize)
    ensures
        directive_for(PairTopicTone::Relationship, turn, total).move_kind
            != PairTurnMove::WeirdHypothesis,
{
}

/// After the opening turn, a directive is in its "final landing" phase
/// exactly when its move is the landing move.
pub proof fn law_final_phase_matches_landing(tone: PairTopicTone, turn: usize, total: usize)
    requires
        turn > 0,
    ensures
        (phase_of(turn as int, total as int) == "final landing"@) <==> (directive_for(
            tone,
            turn,
            total,
        ).move_kind == PairTurnMove::SharedLanding),
{
    reveal_strlit("final landing");
    reveal_strlit("landing approach");
    reveal_strlit("continuation");
    assert("final landing"@[0] != "landing approach"@[0]);
    assert("final landing"@[0] != "continuation"@[0]);
}

/// The two opening turns of a talk that is long enough for both to come
/// before the landing get the same move, and that move is the tone's opener:
/// a hot take for work/dev talks, a playful callout for relationship talks,
/// and a micro scene for every other tone.
pub proof fn law_opening_turns_share_the_tone_opener(tone: PairTopicTone, total: usize)
    requires
        total > 2,
    ensures
        directive_for(tone, 0, total).move_kind == directive_for(tone, 1, total).move_kind,
        directive_for(tone, 1, total).move_kind == match tone {
            PairTopicTone::WorkDev => PairTurnMove::HotTake,
            PairTopicTone::Relationship => PairTurnMove::PlayfulCallout,
            _ => PairTurnMove::MicroScene,
        },
{
}

/// Late in a long talk (turn 5 on, before the last turn), a funny talk keeps
/// grounding its punchlines while every other tone hands the thread over with
/// a small question.
pub proof fn law_late_turns_hand_over(tone: PairTopicTone, turn: usize, total: usize)
    requires
        5 <= turn,
        turn + 1 < total,
    ensures
        directive_for(tone, turn, total).move_kind == if tone == PairTopicTone::Funny {
            PairTurnMove::GroundedPunchline
        } else {
            PairTurnMove::HandoffQuestion
        },
{
}

/// The stage of a turn before the landing: the opening pair, turns 2, 3 and
/// 4, and everything after.
pub open spec fn turn_stage(turn: int) -> int {
    if turn <= 1 {
        1
    } else if turn >= 5 {
        5
    } else {
        turn
    }
}

/// Before the landing, turns in different stages never repeat a move: a talk
/// moves on from its opener through three different moves to its late move.
pub proof fn law_stages_never_repeat_a_move(
    tone: PairTopicTone,
    turn_a: usize,
    turn_b: usize,
    total: usize,
)
    requires
        turn_a + 1 < total,
        turn_b + 1 < total,
        turn_stage(turn_a as int) != turn_stage(turn_b as int),
    ensures
        directive_for(tone, turn_a, total).move_kind != directive_for(tone, turn_b, total).move_kind,
{
}

// ── Executable code ─────────────────────────────────────────────────────────

impl PairTopicTone {
    /// The display label of this tone.
    pub fn label(self) -> (l: &'static str)
        ensures
            l@ == tone_label(self),
    {
        match self {
            Self::Funny => "Funny",
            Self::CasualValues => "Casual values",
            Self::Relationship => "Relationship",
            Self::WorkDev => "Work/dev",
            Self::SeriousReflective => "Serious reflective",
        }
    }

    /// The directive for turn `turn_index` (counted from 0) of a talk of
    /// `total_turns` turns. The turn after `turn_index` must be countable.
    pub fn directive_for_turn(self, turn_index: usize, total_turns: usize) -> (d: PairTurnDirective)
        requires
            turn_index < usize::MAX,
        ensures
            d == directive_for(self, turn_index, total_turns),
    {
        if turn_index + 1 >= total_turns {
            return PairTurnDirective {
                tone: self,
                move_kind: PairTurnMove::SharedLanding,
                turn_index,
                total_turns,
            };
        }
        let move_kind = match self {
            Self::Funny => {
                if turn_index <= 1 {
                    PairTurnMove::MicroScene
                } else if turn_index == 2 {
                    PairTurnMove::Riff
                } else if turn_index == 3 {
                    PairTurnMove::ChaosOption
                } else if turn_index == 4 {
                    PairTurnMove::AbsurdEscalation
                } else {
                    PairTurnMove::GroundedPunchline
                }
            },
            Self::CasualValues => {
                if turn_index <= 1 {
                    PairTurnMove::MicroScene
                } else if turn_index == 2 {
                    PairTurnMove::EmotionalSnap
                } else if turn_index == 3 {
                    PairTurnMove::SidewaysQuestion
                } else if turn_index == 4 {
                    PairTurnMove::LightPressureTest
                } else {
                    PairTurnMove::HandoffQuestion
                }
            },
            Self::Relationship => {
                if turn_index <= 1 {
                    PairTurnMove::PlayfulCallout
                } else if turn_index == 2 {
                    PairTurnMove::SidewaysQuestion
                } else if turn_index == 3 {
                    PairTurnMove::EmotionalSnap
                } else if turn_index == 4 {
                    PairTurnMove::SoftRoast
                } else {
                    PairTurnMove::HandoffQuestion
                }
            },
            Self::WorkDev => {
                if turn_index <= 1 {
                    PairTurnMove::HotTake
                } else if turn_index == 2 {
                    PairTurnMove::MicroScene
                } else if turn_index == 3 {
                    PairTurnMove::GroundedPunchline
                } else if turn_index == 4 {
                    PairTurnMove::WeirdHypothesis
                } else {
                    PairTurnMove::HandoffQuestion
                }
            },
            Self::SeriousReflective => {
                if turn_index <= 1 {
                    PairTurnMove::MicroScene
                } else if turn_index == 2 {
                    PairTurnMove::HotTake
                } else if turn_index == 3 {
                    PairTurnMove::SidewaysQuestion
                } else if turn_index == 4 {
                    PairTurnMove::Callback
                } else {
                    PairTurnMove::HandoffQuestion
                }
            },
        };
        PairTurnDirective { tone: self, move_kind, turn_index, total_turns }
    }
}

impl PairTurnMove {
    /// The display label of this move.
    pub fn label(self) -> (l: &'static str)
        ensures
            l@ == move_label(self),
    {
        match self {
            Self::Riff => "Riff",
            Self::AbsurdEscalation => "Absurd escalation",
            Self::PlayfulCallout => "Playful callout",
            Self::WeirdHypothesis => "Weird hypothesis",
            Self::Callback => "Callback",
            Self::MicroScene => "Micro scene",
            Self::HotTake => "Hot take",
            Self::SidewaysQuestion => "Sideways question",
            Self::SoftRoast => "Soft roast",
            Self::ChaosOption => "Chaos option",
            Self::GroundedPunchline => "Grounded punchline",
            Self::EmotionalSnap => "Emotional snap",
            Self::HandoffQuestion => "Handoff question",
            Self::LightPressureTest => "Light pressure test",
            Self::SharedLanding => "Shared landing",
        }
    }

    /// The instruction text of this move.
    pub fn instruction(self) -> (i: &'static str)
        ensures
            i@ == move_instruction(self),
    {
        match self {
            Self::Riff => "build directly on the other Shadow's idea",
            Self::AbsurdEscalation => "push the shared idea one strange step further",
            Self::PlayfulCallout => "lightly call out the other Shadow's hidden motive",
            Self::WeirdHypothesis => "create a strange but interesting hypothesis",
            Self::Callback => "bring back an earlier phrase, image, or scene",
            Self::MicroScene => "make a small concrete scene the other Shadow can grab",
            Self::HotTake => "say a rough but memorable opinion",
            Self::SidewaysQuestion => "ask from an unexpected angle",
            Self::SoftRoast => "tease the other Shadow lightly without derailing",
            Self::ChaosOption => "offer the weirdest useful option",
            Self::GroundedPunchline => "turn a wild idea into a practical or dry punchline",
            Self::EmotionalSnap => "show a brief strong feeling, then leave room for reaction",
            Self::HandoffQuestion => "end with a small question or unfinished idea that slightly challenges or shifts the premise",
            Self::LightPressureTest => "gently test the assumption while keeping the thread alive",
            Self::SharedLanding => "react to the previous line and leave one concrete final image for the result to pick up",
        }
    }
}

impl PairTurnDirective {
    /// Where this turn stands in the talk: the opening, the continuation, the
    /// approach to the landing, or the final landing. The turn index must be
    /// below `usize::MAX`.
    pub fn phase_label(self) -> (l: &'static str)
        requires
            self.turn_index < usize::MAX,
        ensures
            l@ == phase_of(self.turn_index as int, self.total_turns as int),
    {
        if self.turn_index == 0 {
            "opening spark"
        } else if self.turn_index + 1 >= self.total_turns {
            "final landing"
        } else if self.turn_index + 2 >= self.total_turns {
            "landing approach"
        } else {
            "continuation"
        }
    }
}

/// The transition note for the first message of a Topic Talk.
pub fn pair_topic_initial_message_transition_note() -> (n: &'static str)
    ensures
        n@ == initial_message_transition_note(),
{
    "Use a plain natural opening only if it helps the message feel conversational. Treat the user instruction as the speaker's own reason for writing now, not as an assignment from someone else. Create a sendable message with a concrete angle, opinion, emotional reaction, or small social detail from the instruction. Do not explain why the instruction started. Shape the wording so it can land naturally for the recipient."
}

/// The transition note for handing a finished Topic Talk back to normal pair chat.
pub fn pair_normal_pair_chat_handoff_transition_note() -> (n: &'static str)
    ensures
        n@ == handoff_transition_note(),
{
    "For this next message only, use the completed Topic Talk result as light background for the original owner. Briefly acknowledge it only if it helps the sendable message feel natural, then return to what the original owner can say to the recipient now. Do not keep discussing the completed topic."
}

} // verus!
