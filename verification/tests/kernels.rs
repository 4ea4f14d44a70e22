use rankfns::{bm25_idf_plus1_form, idf_transform_form, tf_transform_form};
use rankfns::{IdfForm, IdfVariant, TfForm, TfVariant};

#[test]
fn bm25_idf_form_degenerate_inputs_collapse_to_zero() {
    assert_eq!(bm25_idf_plus1_form(0, 10), IdfForm::Zero);
    assert_eq!(bm25_idf_plus1_form(10, 0), IdfForm::Zero);
    assert_eq!(bm25_idf_plus1_form(0, 0), IdfForm::Zero);
}

#[test]
fn bm25_idf_form_exact_argument_for_small_corpus() {
    // N = 5 documents, term in 2 of them: the log argument
    // 1 + (5 - 2 + 0.5) / (2 + 0.5) is exactly 12 / 5.
    assert_eq!(bm25_idf_plus1_form(5, 2), IdfForm::LogOf { num: 12, den: 5 });
    let v = (12.0_f32 / 5.0_f32).ln();
    assert!(v.is_finite());
    assert!(v > 0.0);
}

#[test]
fn bm25_idf_form_argument_exceeds_one() {
    match bm25_idf_plus1_form(1000, 10) {
        IdfForm::LogOf { num, den } => {
            assert_eq!(num, 2002);
            assert_eq!(den, 21);
            assert!(num > den);
        }
        IdfForm::Zero => panic!("non-degenerate input"),
    }
}

#[test]
fn bm25_idf_form_argument_decreases_with_df() {
    let rare = bm25_idf_plus1_form(1000, 1);
    let common = bm25_idf_plus1_form(1000, 500);
    assert_eq!(rare, IdfForm::LogOf { num: 2002, den: 3 });
    assert_eq!(common, IdfForm::LogOf { num: 2002, den: 1001 });
    // Same numerator, larger denominator: the rare term's argument, hence
    // its IDF, is strictly larger (cross-multiplied comparison).
    assert!(2002_u64 * 1001 > 2002_u64 * 3);
}

#[test]
fn bm25_idf_form_is_finite_when_df_exceeds_n() {
    // Inconsistent statistics: df is clamped, the argument stays above one.
    assert_eq!(bm25_idf_plus1_form(10, 100), IdfForm::LogOf { num: 22, den: 21 });
}

#[test]
fn tf_transform_form_variants() {
    assert_eq!(tf_transform_form(0, TfVariant::Linear), TfForm::Count { tf: 0 });
    assert_eq!(tf_transform_form(3, TfVariant::Linear), TfForm::Count { tf: 3 });
    assert_eq!(tf_transform_form(0, TfVariant::LogScaled), TfForm::Zero);
    assert_eq!(tf_transform_form(3, TfVariant::LogScaled), TfForm::OnePlusLogOf { tf: 3 });
    // 1 + ln(3) is strictly above 1.
    assert!(1.0_f32 + (3.0_f32).ln() > 1.0);
}

#[test]
fn idf_transform_form_conventions() {
    assert_eq!(idf_transform_form(0, 10, IdfVariant::Standard), IdfForm::Zero);
    assert_eq!(idf_transform_form(10, 0, IdfVariant::Standard), IdfForm::Zero);
    assert_eq!(idf_transform_form(0, 10, IdfVariant::Smoothed), IdfForm::Zero);
    assert_eq!(idf_transform_form(10, 0, IdfVariant::Smoothed), IdfForm::Zero);
    // Within the corpus both variants give an argument of at least one, so a
    // non-negative IDF.
    assert_eq!(
        idf_transform_form(1000, 10, IdfVariant::Standard),
        IdfForm::LogOf { num: 1000, den: 10 }
    );
    assert_eq!(
        idf_transform_form(1000, 10, IdfVariant::Smoothed),
        IdfForm::LogOf { num: 2002, den: 21 }
    );
}

#[test]
fn idf_transform_form_standard_goes_negative_when_df_exceeds_n() {
    // No clamp here: the argument 10 / 100 drops below one and the kernel
    // value ln(10 / 100) is negative, flagging the inconsistent corpus.
    match idf_transform_form(10, 100, IdfVariant::Standard) {
        IdfForm::LogOf { num, den } => {
            assert_eq!(num, 10);
            assert_eq!(den, 100);
            assert!(num < den);
            assert!((num as f32 / den as f32).ln() < 0.0);
        }
        IdfForm::Zero => panic!("non-degenerate input"),
    }
}

#[test]
fn smoothed_idf_form_agrees_with_bm25_idf_within_corpus() {
    assert_eq!(
        idf_transform_form(5, 2, IdfVariant::Smoothed),
        bm25_idf_plus1_form(5, 2)
    );
    assert_eq!(
        idf_transform_form(1000, 500, IdfVariant::Smoothed),
        bm25_idf_plus1_form(1000, 500)
    );
}

#[test]
fn variant_selectors_compare_by_variant() {
    assert_eq!(TfVariant::Linear, TfVariant::Linear);
    assert_ne!(TfVariant::Linear, TfVariant::LogScaled);
    assert_eq!(IdfVariant::Smoothed, IdfVariant::Smoothed);
    assert_ne!(IdfVariant::Standard, IdfVariant::Smoothed);
}
