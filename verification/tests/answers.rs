use shadow_core::{ShadowAnswer, ShadowAnswerContent};

#[test]
fn shadow_answer_final_text_keeps_title_and_body_format() {
    let answer = ShadowAnswer {
        content: ShadowAnswerContent {
            title: "A title".to_string(),
            body: "A body".to_string(),
        },
        display_deltas: vec!["A title".to_string()],
    };

    assert_eq!(answer.content.final_answer_text(), "A title\n\nA body");
}
