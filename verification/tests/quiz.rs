use rust_quiz::quiz::quiz_bank;

#[test]
fn test_quiz_bank_is_well_formed() {
    let bank = quiz_bank();
    assert_eq!(bank.len(), 20);
    for (i, quiz) in bank.iter().enumerate() {
        assert_eq!(quiz.id, i as u32 + 1);
        assert!(quiz.choices.len() >= 2);
        assert!(quiz.correct < quiz.choices.len());
    }
}
