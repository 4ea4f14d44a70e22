//! Ranking math kernels for information retrieval, with their integer core
//! verified.
//!
//! The crate is index-free: it holds the exact, verifiable skeleton of the
//! classic scoring transforms (BM25 IDF, TF/IDF variants), not an inverted
//! index. Every kernel in this family has the same shape: on degenerate input
//! (a zero count) it collapses to `0.0`; otherwise it is a simple analytic
//! function (identity, or a natural logarithm) of an exact rational in the
//! integer inputs. The degenerate policy, the clamping policy, and the exact
//! rational are all integer matters and are verified here; taking `ln` and
//! dividing happen in floating point, which stays with unverified callers.

use vstd::prelude::*;

verus! {

/// TF transform variants.
#[derive(Debug, Clone, Copy, PartialEq, Eq, Structural)]
pub enum TfVariant {
    /// Linear TF: `tf`.
    Linear,
    /// Log-scaled TF: `1 + ln(tf)` for `tf > 0`.
    LogScaled,
}

/// IDF transform variants.
#[derive(Debug, Clone, Copy, PartialEq, Eq, Structural)]
pub enum IdfVariant {
    /// Standard IDF: `ln(N / df)`.
    Standard,
    /// Smoothed IDF: `ln(1 + (N - df + 0.5) / (df + 0.5))`.
    Smoothed,
}

/// Exact value of an IDF kernel before any floating point is involved:
/// either the degenerate `0.0`, or `ln(num / den)` for a ratio of integers.
#[derive(Debug, Clone, Copy, PartialEq, Eq, Structural)]
pub enum IdfForm {
    /// Degenerate input; the kernel returns exactly `0.0`.
    Zero,
    /// The kernel returns the natural logarithm of `num / den`.
    LogOf {
        /// Numerator of the log argument.
        num: u64,
        /// Denominator of the log argument; always positive.
        den: u64,
    },
}

/// An IDF kernel's degenerate-input policy: with an empty corpus or an unseen
/// term there is no evidence, and the kernel returns `0.0` instead of risking
/// `ln(0)` or a division by zero.
pub open spec fn idf_degenerate(n_docs: int, df: int) -> bool {
    n_docs == 0 || df == 0
}

/// Document frequency clamped against the corpus size, the guard
/// `bm25_idf_plus1` uses to tolerate inconsistent statistics (`df > N`).
pub open spec fn clamped_df(n_docs: int, df: int) -> int {
    if df <= n_docs {
        df
    } else {
        n_docs
    }
}

/// Numerator of the BM25 IDF log argument. With `d = min(df, N)`, the
/// argument `(N - d + 0.5) / (d + 0.5) + 1` equals `(2N + 2) / (2d + 1)`
/// exactly, which keeps it in integers.
pub open spec fn bm25_idf_arg_num(n_docs: int) -> int {
    2 * n_docs + 2
}

/// Denominator of the BM25 IDF log argument; see [`bm25_idf_arg_num`].
pub open spec fn bm25_idf_arg_den(n_docs: int, df: int) -> int {
    2 * clamped_df(n_docs, df) + 1
}

/// The exact integer core of the Okapi/BM25 IDF-plus-one kernel
/// `ln(1 + (N - df + 0.5) / (df + 0.5))`.
///
/// Robustness policy, all of it decided here:
/// - `n_docs == 0` or `df == 0` yields the degenerate `Zero` (no evidence).
/// - `df > n_docs` is clamped to `n_docs`, so the log argument stays a
///   positive rational and the kernel value stays finite.
pub fn bm25_idf_plus1_form(n_docs: u32, df: u32) -> (r: IdfForm)
    ensures
        (r is Zero) <==> idf_degenerate(n_docs as int, df as int),
        (r matches IdfForm::LogOf { num, den } ==> num == bm25_idf_arg_num(n_docs as int)
            && den == bm25_idf_arg_den(n_docs as int, df as int)),
{
    if n_docs == 0 || df == 0 {
        return IdfForm::Zero;
    }
    let d: u32 = if df > n_docs {
        n_docs
    } else {
        df
    };
    IdfForm::LogOf { num: 2 * (n_docs as u64) + 2, den: 2 * (d as u64) + 1 }
}

/// Numerator of the log argument of [`idf_transform_form`], per variant.
/// `Standard` takes `ln(N / df)` as is; `Smoothed` uses the same exact
/// rewriting as [`bm25_idf_arg_num`], but without clamping `df`.
pub open spec fn idf_arg_num(n_docs: int, variant: IdfVariant) -> int {
    match variant {
        IdfVariant::Standard => n_docs,
        IdfVariant::Smoothed => 2 * n_docs + 2,
    }
}

/// Denominator of the log argument of [`idf_transform_form`], per variant;
/// see [`idf_arg_num`].
pub open spec fn idf_arg_den(df: int, variant: IdfVariant) -> int {
    match variant {
        IdfVariant::Standard => df,
        IdfVariant::Smoothed => 2 * df + 1,
    }
}

/// The exact integer core of the generic IDF transform.
///
/// Robustness policy: `n_docs == 0` or `df == 0` yields the degenerate
/// `Zero` for either variant. `df` is deliberately *not* clamped against
/// `n_docs` here: with `Standard` and `df > N` the argument `N / df` drops
/// below one, so the kernel value `ln(N / df)` goes negative — an informative
/// signal for an inconsistent corpus, not an error.
pub fn idf_transform_form(n_docs: u32, df: u32, variant: IdfVariant) -> (r: IdfForm)
    ensures
        (r is Zero) <==> idf_degenerate(n_docs as int, df as int),
        (r matches IdfForm::LogOf { num, den } ==> num == idf_arg_num(n_docs as int, variant)
            && den == idf_arg_den(df as int, variant)),
{
    if n_docs == 0 || df == 0 {
        return IdfForm::Zero;
    }
    match variant {
        IdfVariant::Standard => IdfForm::LogOf { num: n_docs as u64, den: df as u64 },
        IdfVariant::Smoothed => IdfForm::LogOf {
            num: 2 * (n_docs as u64) + 2,
            den: 2 * (df as u64) + 1,
        },
    }
}

/// Exact value of a TF transform before any floating point is involved.
#[derive(Debug, Clone, Copy, PartialEq, Eq, Structural)]
pub enum TfForm {
    /// Degenerate input; the transform returns exactly `0.0`.
    Zero,
    /// The transform returns the count itself (linear TF).
    Count {
        /// The raw term frequency.
        tf: u32,
    },
    /// The transform returns `1 + ln(tf)` (log-scaled TF).
    OnePlusLogOf {
        /// The raw term frequency; always positive.
        tf: u32,
    },
}

/// The exact integer core of the generic TF transform.
///
/// `Linear` is the identity on the count. `LogScaled` maps a zero count to
/// the degenerate `Zero` (avoiding `ln(0)`) and a positive count `tf` to
/// `1 + ln(tf)`; the `+1` offset keeps the transform of a term that occurs
/// at least once at `1.0` or above.
pub fn tf_transform_form(tf: u32, variant: TfVariant) -> (r: TfForm)
    ensures
        variant == TfVariant::Linear ==> r == (TfForm::Count { tf }),
        variant == TfVariant::LogScaled && tf == 0 ==> r == TfForm::Zero,
        variant == TfVariant::LogScaled && tf > 0 ==> r == (TfForm::OnePlusLogOf { tf }),
{
    match variant {
        TfVariant::Linear => TfForm::Count { tf },
        TfVariant::LogScaled => {
            if tf == 0 {
                TfForm::Zero
            } else {
                TfForm::OnePlusLogOf { tf }
            }
        },
    }
}

/// For positive denominators `d1` and `d2`, says exactly that the rational
/// `n1 / d1` is greater than `n2 / d2`, written without division.
pub open spec fn ratio_gt(n1: int, d1: int, n2: int, d2: int) -> bool {
    n1 * d2 > n2 * d1
}

/// For positive denominators `d1` and `d2`, says exactly that the rational
/// `n1 / d1` is at most `n2 / d2`, written without division.
pub open spec fn ratio_le(n1: int, d1: int, n2: int, d2: int) -> bool {
    n1 * d2 <= n2 * d1
}

/// On every non-degenerate input — `df > n_docs` included, thanks to the
/// clamp — the BM25 IDF log argument is a ratio of positive integers and
/// exceeds one. Its logarithm, the kernel value, is therefore finite and
/// strictly positive.
pub proof fn lemma_bm25_idf_arg_exceeds_one(n_docs: int, df: int)
    requires
        1 <= n_docs,
        1 <= df,
    ensures
        0 < bm25_idf_arg_den(n_docs, df),
        bm25_idf_arg_den(n_docs, df) < bm25_idf_arg_num(n_docs),
{
}

/// For a fixed corpus size, the BM25 IDF log argument strictly decreases as
/// the document frequency grows, as long as both frequencies stay within the
/// corpus: rarer terms weigh more. Since both denominators are positive and
/// `ln` is strictly increasing, the kernel value strictly decreases too.
///
/// The bound `df2 <= n_docs` is needed: beyond the corpus size the clamp in
/// [`clamped_df`] freezes the argument, so the kernel is no longer strict
/// there.
pub proof fn lemma_bm25_idf_arg_decreasing(n_docs: int, df1: int, df2: int)
    requires
        1 <= df1,
        df1 < df2,
        df2 <= n_docs,
    ensures
        bm25_idf_arg_den(n_docs, df1) < bm25_idf_arg_den(n_docs, df2),
        ratio_gt(
            bm25_idf_arg_num(n_docs),
            bm25_idf_arg_den(n_docs, df1),
            bm25_idf_arg_num(n_docs),
            bm25_idf_arg_den(n_docs, df2),
        ),
{
    let num: int = bm25_idf_arg_num(n_docs);
    let d1: int = bm25_idf_arg_den(n_docs, df1);
    let d2: int = bm25_idf_arg_den(n_docs, df2);
    assert(num * d2 > num * d1) by (nonlinear_arith)
        requires
            0 < num,
            d1 < d2,
    ;
}

/// On every non-degenerate input, both IDF variants produce a log argument
/// that is a ratio of positive integers, so the kernel value is always
/// finite — never `NaN`, never infinite. Whenever the statistics are
/// consistent (`df <= n_docs`), the argument is at least one and the kernel
/// value is non-negative.
pub proof fn lemma_idf_arg_positive(n_docs: int, df: int, variant: IdfVariant)
    requires
        1 <= n_docs,
        1 <= df,
    ensures
        0 < idf_arg_num(n_docs, variant),
        0 < idf_arg_den(df, variant),
        df <= n_docs ==> idf_arg_num(n_docs, variant) >= idf_arg_den(df, variant),
{
}

/// Within a consistent corpus (`df <= n_docs`), the `Smoothed` IDF variant
/// takes the logarithm of exactly the same argument as `bm25_idf_plus1`:
/// the two kernels agree wherever the clamp in the latter is idle.
pub proof fn lemma_smoothed_idf_matches_bm25(n_docs: int, df: int)
    requires
        1 <= df,
        df <= n_docs,
    ensures
        idf_arg_num(n_docs, IdfVariant::Smoothed) == bm25_idf_arg_num(n_docs),
        idf_arg_den(df, IdfVariant::Smoothed) == bm25_idf_arg_den(n_docs, df),
{
}

// ---------------------------------------------------------------------------
// Exact-rational model of the kernels whose inputs are continuous: BM25 TF
// and language-model smoothing. Their floating-point evaluation stays with
// unverified callers, but the facts below hold of the exact values those
// evaluations approximate. Each continuous input is taken as an integer
// multiple of `1 / scale` for an arbitrary resolution `scale >= 1`, already
// clamped to its documented range; every claim is scale-invariant.
// ---------------------------------------------------------------------------

/// Numerator of the BM25 TF kernel `tf * (k1 + 1) / (tf + k1 * norm)`, with
/// `tf` and `k1` given as multiples of `1 / scale` and `norm` standing for
/// the length normalization `1 - b + b * doc_len / avg_doc_len` (which is
/// non-negative once `b` is clamped to `[0, 1]` and lengths are
/// non-negative). The kernel value is `num / den` of this and
/// [`bm25_tf_den`].
pub open spec fn bm25_tf_num(tf: int, k1: int, scale: int) -> int {
    tf * (k1 + scale)
}

/// Denominator of the BM25 TF kernel; see [`bm25_tf_num`].
pub open spec fn bm25_tf_den(tf: int, k1: int, norm: int, scale: int) -> int {
    tf * scale + k1 * norm
}

/// The BM25 TF kernel saturates: for every positive term frequency its exact
/// value is positive and at most `k1 + 1` (here the rational
/// `(k1 + scale) / scale`). Linear TF grows without bound; this cap is what
/// makes BM25's term-frequency contribution bounded.
pub proof fn lemma_bm25_tf_bounded(tf: int, k1: int, norm: int, scale: int)
    requires
        1 <= scale,
        1 <= tf,
        0 <= k1,
        0 <= norm,
    ensures
        0 < bm25_tf_den(tf, k1, norm, scale),
        0 < bm25_tf_num(tf, k1, scale),
        ratio_le(bm25_tf_num(tf, k1, scale), bm25_tf_den(tf, k1, norm, scale), k1 + scale, scale),
{
    let num: int = bm25_tf_num(tf, k1, scale);
    let den: int = bm25_tf_den(tf, k1, norm, scale);
    assert(0 < den && 0 < num && num * scale <= (k1 + scale) * den) by (nonlinear_arith)
        requires
            1 <= scale,
            1 <= tf,
            0 <= k1,
            0 <= norm,
            num == tf * (k1 + scale),
            den == tf * scale + k1 * norm,
    ;
}

/// The BM25 TF kernel never decreases as the term frequency grows, and
/// strictly increases as long as `k1` and the length normalization are both
/// positive. (With `k1 == 0` or a zero normalization the kernel is constant
/// in `tf`, so strictness genuinely needs `0 < k1 * norm`.)
pub proof fn lemma_bm25_tf_monotone(tf1: int, tf2: int, k1: int, norm: int, scale: int)
    requires
        1 <= scale,
        1 <= tf1,
        tf1 <= tf2,
        0 <= k1,
        0 <= norm,
    ensures
        ratio_le(
            bm25_tf_num(tf1, k1, scale),
            bm25_tf_den(tf1, k1, norm, scale),
            bm25_tf_num(tf2, k1, scale),
            bm25_tf_den(tf2, k1, norm, scale),
        ),
        tf1 < tf2 && 0 < k1 * norm ==> ratio_gt(
            bm25_tf_num(tf2, k1, scale),
            bm25_tf_den(tf2, k1, norm, scale),
            bm25_tf_num(tf1, k1, scale),
            bm25_tf_den(tf1, k1, norm, scale),
        ),
{
    let num1: int = bm25_tf_num(tf1, k1, scale);
    let den1: int = bm25_tf_den(tf1, k1, norm, scale);
    let num2: int = bm25_tf_num(tf2, k1, scale);
    let den2: int = bm25_tf_den(tf2, k1, norm, scale);
    // Cross-multiplied, the two values differ by exactly
    // (k1 + scale) * k1 * norm * (tf2 - tf1).
    assert(num1 * den2 <= num2 * den1 && (tf1 < tf2 && 0 < k1 * norm ==> num2 * den1 > num1
        * den2)) by (nonlinear_arith)
        requires
            1 <= scale,
            1 <= tf1,
            tf1 <= tf2,
            0 <= k1,
            0 <= norm,
            num1 == tf1 * (k1 + scale),
            den1 == tf1 * scale + k1 * norm,
            num2 == tf2 * (k1 + scale),
            den2 == tf2 * scale + k1 * norm,
    ;
}

/// Numerator of the Jelinek–Mercer smoothed probability
/// `lambda * p_doc + (1 - lambda) * p_corpus`, with all three inputs given
/// as multiples of `1 / scale` and already clamped to `[0, 1]`
/// (`p_doc = tf / doc_len`, zero for an empty document). The smoothed value
/// is `num / den` of this and [`jm_den`].
pub open spec fn jm_num(lambda: int, p_doc: int, p_corpus: int, scale: int) -> int {
    lambda * p_doc + (scale - lambda) * p_corpus
}

/// Denominator of the Jelinek–Mercer smoothed probability; see [`jm_num`].
pub open spec fn jm_den(scale: int) -> int {
    scale * scale
}

/// Jelinek–Mercer smoothing is a convex combination: whenever `lambda`,
/// `p_doc` and `p_corpus` all lie in `[0, 1]`, so does the smoothed
/// probability.
pub proof fn lemma_jm_smoothed_p_bounded(lambda: int, p_doc: int, p_corpus: int, scale: int)
    requires
        1 <= scale,
        0 <= lambda <= scale,
        0 <= p_doc <= scale,
        0 <= p_corpus <= scale,
    ensures
        0 < jm_den(scale),
        0 <= jm_num(lambda, p_doc, p_corpus, scale),
        jm_num(lambda, p_doc, p_corpus, scale) <= jm_den(scale),
{
    let num: int = jm_num(lambda, p_doc, p_corpus, scale);
    assert(0 < scale * scale && 0 <= num && num <= scale * scale) by (nonlinear_arith)
        requires
            1 <= scale,
            0 <= lambda <= scale,
            0 <= p_doc <= scale,
            0 <= p_corpus <= scale,
            num == lambda * p_doc + (scale - lambda) * p_corpus,
    ;
}

/// Numerator of the Dirichlet smoothed probability
/// `(tf + mu * p_corpus) / (doc_len + mu)`, with `tf`, `doc_len` and `mu`
/// given as multiples of `1 / scale`, `mu` already clamped to be
/// non-negative, and `p_corpus` clamped to `[0, 1]`. The smoothed value is
/// `num / den` of this and [`dirichlet_den`].
pub open spec fn dirichlet_num(tf: int, mu: int, p_corpus: int, scale: int) -> int {
    tf * scale + mu * p_corpus
}

/// Denominator of the Dirichlet smoothed probability; see [`dirichlet_num`].
pub open spec fn dirichlet_den(doc_len: int, mu: int, scale: int) -> int {
    scale * (doc_len + mu)
}

/// Dirichlet smoothing yields a probability: whenever the term frequency is
/// at most the document length (any term occurs no more often than the
/// document has tokens), `mu` is non-negative, `p_corpus` lies in `[0, 1]`
/// and the denominator is positive, the smoothed value lies in `[0, 1]`.
pub proof fn lemma_dirichlet_smoothed_p_bounded(
    tf: int,
    doc_len: int,
    mu: int,
    p_corpus: int,
    scale: int,
)
    requires
        1 <= scale,
        0 <= tf <= doc_len,
        0 <= mu,
        0 <= p_corpus <= scale,
        0 < doc_len + mu,
    ensures
        0 < dirichlet_den(doc_len, mu, scale),
        0 <= dirichlet_num(tf, mu, p_corpus, scale),
        dirichlet_num(tf, mu, p_corpus, scale) <= dirichlet_den(doc_len, mu, scale),
{
    let num: int = dirichlet_num(tf, mu, p_corpus, scale);
    let den: int = dirichlet_den(doc_len, mu, scale);
    assert(0 < den && 0 <= num && num <= den) by (nonlinear_arith)
        requires
            1 <= scale,
            0 <= tf <= doc_len,
            0 <= mu,
            0 <= p_corpus <= scale,
            0 < doc_len + mu,
            num == tf * scale + mu * p_corpus,
            den == scale * (doc_len + mu),
    ;
}

} // verus!
