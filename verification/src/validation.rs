//! The validation engine: path contexts, failure reasons and the algebra that
//! aggregates the results of nested validations.

use vstd::prelude::*;

verus! {

/// One step of the descent from the document root to a validation site.
#[derive(Debug, PartialEq, Eq)]
pub enum ValidationPathComponent {
    Struct { struct_name: String, field_name: String },
    Array { index: usize },
    EnumVariant { variant_name: String },
}

/// The mathematical content of a [`ValidationPathComponent`].
pub enum PathComponentView {
    Struct { struct_name: Seq<char>, field_name: Seq<char> },
    Array { index: nat },
    EnumVariant { variant_name: Seq<char> },
}

impl View for ValidationPathComponent {
    type V = PathComponentView;

    open spec fn view(&self) -> PathComponentView {
        match *self {
            ValidationPathComponent::Struct { struct_name, field_name } => PathComponentView::Struct {
                struct_name: struct_name@,
                field_name: field_name@,
            },
            ValidationPathComponent::Array { index } => PathComponentView::Array {
                index: index as nat,
            },
            ValidationPathComponent::EnumVariant { variant_name } => PathComponentView::EnumVariant {
                variant_name: variant_name@,
            },
        }
    }
}

impl Clone for ValidationPathComponent {
    fn clone(&self) -> (copy: Self)
        ensures
            copy == *self,
    {
        match self {
            ValidationPathComponent::Struct { struct_name, field_name } => ValidationPathComponent::Struct {
                struct_name: struct_name.clone(),
                field_name: field_name.clone(),
            },
            ValidationPathComponent::Array { index } => ValidationPathComponent::Array { index: *index },
            ValidationPathComponent::EnumVariant { variant_name } => ValidationPathComponent::EnumVariant {
                variant_name: variant_name.clone(),
            },
        }
    }
}

/// The views of a sequence of path components, in order.
pub open spec fn components_view(components: Seq<ValidationPathComponent>) -> Seq<PathComponentView> {
    components.map_values(|c: ValidationPathComponent| c@)
}

/// The path from the document root to the current validation site. It is empty
/// at the root and only ever grows by producing a new, longer context.
#[derive(Debug, PartialEq, Eq)]
pub struct ValidationContext(pub Vec<ValidationPathComponent>);

impl View for ValidationContext {
    type V = Seq<PathComponentView>;

    open spec fn view(&self) -> Seq<PathComponentView> {
        components_view(self.0@)
    }
}

/// The context of the field `field_name` of a struct `struct_name` reached
/// through `context`.
pub open spec fn field_context(
    context: Seq<PathComponentView>,
    struct_name: Seq<char>,
    field_name: Seq<char>,
) -> Seq<PathComponentView> {
    context.push(PathComponentView::Struct { struct_name, field_name })
}

/// The context of the element at `index` of a sequence reached through
/// `context`.
pub open spec fn element_context(context: Seq<PathComponentView>, index: int) -> Seq<
    PathComponentView,
> {
    context.push(PathComponentView::Array { index: index as nat })
}

impl Clone for ValidationContext {
    fn clone(&self) -> (copy: Self)
        ensures
            copy@ == self@,
    {
        let mut components: Vec<ValidationPathComponent> = Vec::new();
        let mut i: usize = 0;
        while i < self.0.len()
            invariant
                i <= self.0.len(),
                components@ == self.0@.take(i as int),
            decreases self.0.len() - i,
        {
            components.push(self.0[i].clone());
            assert(components@ == self.0@.take(i + 1));
            i = i + 1;
        }
        assert(components@ == self.0@);
        ValidationContext(components)
    }
}

impl Default for ValidationContext {
    /// The context of the document root.
    fn default() -> (context: Self)
        ensures
            context@ == Seq::<PathComponentView>::empty(),
    {
        ValidationContext(Vec::new())
    }
}

impl ValidationContext {
    /// A new context that descends from this one through `components`, in
    /// order. This context is left as it was.
    pub fn extend_context(&self, components: Vec<ValidationPathComponent>) -> (extended: Self)
        ensures
            extended@ == self@ + components_view(components@),
    {
        let mut components = components;
        let mut path = self.clone().0;
        path.append(&mut components);
        ValidationContext(path)
    }

    /// A new context that descends from this one into the field `field_name`
    /// of the struct `struct_name`.
    pub fn extend_context_with_struct_field(&self, struct_name: &str, field_name: &str) -> (extended: Self)
        ensures
            extended@ == field_context(self@, struct_name@, field_name@),
    {
        let mut component: Vec<ValidationPathComponent> = Vec::new();
        component.push(
            ValidationPathComponent::Struct {
                struct_name: struct_name.to_owned(),
                field_name: field_name.to_owned(),
            },
        );
        self.extend_context(component)
    }
}


/// Why a validation failed, and where in the document.
#[derive(Debug, PartialEq, Eq)]
pub struct FailureReason {
    pub message: String,
    pub context: ValidationContext,
}

/// The mathematical content of a [`FailureReason`].
pub struct FailureReasonView {
    pub message: Seq<char>,
    pub context: Seq<PathComponentView>,
}

impl View for FailureReason {
    type V = FailureReasonView;

    open spec fn view(&self) -> FailureReasonView {
        FailureReasonView { message: self.message@, context: self.context@ }
    }
}

impl Clone for FailureReason {
    fn clone(&self) -> (copy: Self)
        ensures
            copy@ == self@,
    {
        FailureReason { message: self.message.clone(), context: self.context.clone() }
    }
}

/// The views of a sequence of failure reasons, in order.
pub open spec fn reasons_view(reasons: Seq<FailureReason>) -> Seq<FailureReasonView> {
    reasons.map_values(|r: FailureReason| r@)
}

/// The outcome of validating a value: either nothing failed at or below it,
/// or the failures found, in the order in which they were collected.
#[derive(Debug, PartialEq, Eq)]
pub enum ValidationResult {
    Passed,
    Failed { reasons: Vec<FailureReason> },
}

/// The mathematical content of a [`ValidationResult`].
pub enum ValidationResultView {
    Passed,
    Failed { reasons: Seq<FailureReasonView> },
}

impl View for ValidationResult {
    type V = ValidationResultView;

    open spec fn view(&self) -> ValidationResultView {
        match *self {
            ValidationResult::Passed => ValidationResultView::Passed,
            ValidationResult::Failed { reasons } => ValidationResultView::Failed {
                reasons: reasons_view(reasons@),
            },
        }
    }
}

impl ValidationResultView {
    /// The failures that the result carries; none for `Passed`.
    pub open spec fn failures(self) -> Seq<FailureReasonView> {
        match self {
            ValidationResultView::Passed => Seq::empty(),
            ValidationResultView::Failed { reasons } => reasons,
        }
    }

    /// A failed result names at least one reason.
    pub open spec fn well_formed(self) -> bool {
        self is Failed ==> self.failures().len() > 0
    }

    /// Every failure lies at `context` or below it.
    pub open spec fn located_under(self, context: Seq<PathComponentView>) -> bool {
        forall|k: int|
            0 <= k < self.failures().len() ==> context.is_prefix_of(
                #[trigger] self.failures()[k].context,
            )
    }

    /// The aggregate of two results: `Passed` is neutral, and two failures
    /// join their reasons, those of `self` first.
    pub open spec fn merge(self, other: Self) -> Self {
        match (self, other) {
            (ValidationResultView::Passed, ValidationResultView::Passed) => ValidationResultView::Passed,
            (ValidationResultView::Passed, ValidationResultView::Failed { reasons }) => ValidationResultView::Failed {
                reasons,
            },
            (ValidationResultView::Failed { reasons }, ValidationResultView::Passed) => ValidationResultView::Failed {
                reasons,
            },
            (
                ValidationResultView::Failed { reasons: left },
                ValidationResultView::Failed { reasons: right },
            ) => ValidationResultView::Failed { reasons: left + right },
        }
    }
}

/// The aggregate of a sequence of results, merged from left to right starting
/// from `Passed`.
pub open spec fn merge_all(results: Seq<ValidationResultView>) -> ValidationResultView
    decreases results.len(),
{
    if results.len() == 0 {
        ValidationResultView::Passed
    } else {
        merge_all(results.drop_last()).merge(results.last())
    }
}

/// The views of a sequence of results, in order.
pub open spec fn results_view(results: Seq<ValidationResult>) -> Seq<ValidationResultView> {
    results.map_values(|r: ValidationResult| r@)
}

impl ValidationResult {
    /// Aggregates two results. Nothing is dropped, reordered or deduplicated.
    pub fn merge(self, other: Self) -> (merged: Self)
        ensures
            merged@ == self@.merge(other@),
            self@ is Passed ==> merged@ == other@,
            other@ is Passed ==> merged@ == self@,
            self@ is Failed && other@ is Failed ==> merged@ == (ValidationResultView::Failed {
                reasons: self@->reasons + other@->reasons,
            }),
            merged@ is Passed <==> self@ is Passed && other@ is Passed,
            self@.well_formed() && other@.well_formed() ==> merged@.well_formed(),
    {
        match (self, other) {
            (ValidationResult::Passed, ValidationResult::Passed) => ValidationResult::Passed,
            (ValidationResult::Passed, ValidationResult::Failed { reasons }) => ValidationResult::Failed {
                reasons,
            },
            (ValidationResult::Failed { reasons }, ValidationResult::Passed) => ValidationResult::Failed {
                reasons,
            },
            (
                ValidationResult::Failed { reasons: left_reasons },
                ValidationResult::Failed { reasons: right_reasons },
            ) => {
                let mut left_reasons = left_reasons;
                let mut right_reasons = right_reasons;
                let ghost left = left_reasons@;
                let ghost right = right_reasons@;
                left_reasons.append(&mut right_reasons);
                assert(reasons_view(left + right) == reasons_view(left) + reasons_view(right));
                ValidationResult::Failed { reasons: left_reasons }
            },
        }
    }

    /// Aggregates any number of results, in order.
    pub fn merge_all(results: Vec<ValidationResult>) -> (merged: Self)
        ensures
            merged@ == merge_all(results_view(results@)),
    {
        let mut results = results;
        let ghost all = results_view(results@);
        let mut merged = ValidationResult::Passed;
        while results.len() > 0
            invariant
                merge_all(all) == merge_all(results_view(results@)).merge(merged@),
            decreases results.len(),
        {
            let ghost before = results_view(results@);
            let last = results.pop().unwrap();
            proof {
                assert(results_view(results@) == before.drop_last());
                assert(last@ == before.last());
                lemma_merge_associative(merge_all(before.drop_last()), last@, merged@);
            }
            merged = last.merge(merged);
        }
        merged
    }
}

impl Default for ValidationResult {
    /// The neutral element of [`ValidationResult::merge`].
    fn default() -> (result: Self)
        ensures
            result@ is Passed,
    {
        ValidationResult::Passed
    }
}

/// Merging with `Passed` on either side changes nothing.
pub proof fn lemma_merge_identity(a: ValidationResultView)
    ensures
        ValidationResultView::Passed.merge(a) == a,
        a.merge(ValidationResultView::Passed) == a,
{
}

/// Merging two failed results yields a failed result whose reasons are those
/// of the left operand followed by those of the right one.
pub proof fn lemma_merge_failed_concatenates(a: ValidationResultView, b: ValidationResultView)
    requires
        a is Failed,
        b is Failed,
    ensures
        a.merge(b) == (ValidationResultView::Failed { reasons: a->reasons + b->reasons }),
{
}

/// Whatever the operands, the failures of a merge are those of the left
/// operand followed by those of the right one, and the merge passed exactly
/// when both operands did.
pub proof fn lemma_merge_failures(a: ValidationResultView, b: ValidationResultView)
    ensures
        a.merge(b).failures() == a.failures() + b.failures(),
        a.merge(b) is Passed <==> a is Passed && b is Passed,
        a.merge(b) is Passed <==> b.merge(a) is Passed,
        a.well_formed() && b.well_formed() ==> a.merge(b).well_formed(),
{
}

/// Merging is associative.
pub proof fn lemma_merge_associative(
    a: ValidationResultView,
    b: ValidationResultView,
    c: ValidationResultView,
)
    ensures
        a.merge(b).merge(c) == a.merge(b.merge(c)),
{
    assert((a.failures() + b.failures()) + c.failures() == a.failures() + (b.failures()
        + c.failures()));
}


/// `regex::Error`, the error with which the `regex` crate refuses a pattern.
/// Its contents are not inspected here; values are only carried through.
#[verifier::external_type_specification]
#[verifier::external_body]
pub struct ExRegexError(regex::Error);

/// A defect of the validation rules themselves, as opposed to a defect of
/// the document under validation.
#[derive(Debug, PartialEq)]
pub enum ValidationError {
    /// A validator's own pattern could not be compiled.
    InvalidRegularExpressionError(regex::Error),
}

impl From<regex::Error> for ValidationError {
    fn from(error: regex::Error) -> (converted: Self)
        ensures
            converted == ValidationError::InvalidRegularExpressionError(error),
    {
        ValidationError::InvalidRegularExpressionError(error)
    }
}

impl vstd::std_specs::convert::FromSpecImpl<regex::Error> for ValidationError {
    open spec fn obeys_from_spec() -> bool {
        true
    }

    open spec fn from_spec(error: regex::Error) -> Self {
        ValidationError::InvalidRegularExpressionError(error)
    }
}

/// The capability of being validated.
///
/// An implementation validates what it owns at the context it is given, and
/// each nested value under that context extended by the step that leads to
/// the value. It reports every failure and stops only for a defect of its
/// own rules.
pub trait Validate {
    /// Validates a root value: under the empty context.
    fn validate(&self) -> (returned: Result<ValidationResult, ValidationError>)
        ensures
            exists|root: ValidationContext| #[trigger]
                call_ensures(Self::validate_with_context, (self, root), returned) && root@
                    == Seq::<PathComponentView>::empty(),
    {
        self.validate_with_context(ValidationContext::default())
    }

    /// Validates a value that was reached through `context`.
    fn validate_with_context(&self, context: ValidationContext) -> Result<
        ValidationResult,
        ValidationError,
    >;
}

/// `returned` is what validating `item` may return where the context that it
/// is given has the view `context`.
pub open spec fn validated_under<T: Validate + ?Sized>(
    item: &T,
    context: Seq<PathComponentView>,
    returned: Result<ValidationResult, ValidationError>,
) -> bool {
    exists|given: ValidationContext| #[trigger]
        call_ensures(T::validate_with_context, (item, given), returned) && given@ == context
}

/// `results` are results that the elements of `items` may return, each
/// validated under its own index below `context`.
pub open spec fn element_results<T: Validate>(
    items: Seq<T>,
    context: Seq<PathComponentView>,
    results: Seq<ValidationResult>,
) -> bool {
    &&& results.len() == items.len()
    &&& forall|i: int|
        0 <= i < items.len() ==> validated_under(
            &items[i],
            element_context(context, i),
            Ok(#[trigger] results[i]),
        )
}

/// `returned` is what validating the sequence `items` under `context` may
/// return: the merge, in ascending order, of results of all the elements, or
/// the defect with which some element stopped after all the elements before
/// it had returned a result.
pub open spec fn sequence_returned<T: Validate>(
    items: Seq<T>,
    context: Seq<PathComponentView>,
    returned: Result<ValidationResult, ValidationError>,
) -> bool {
    match returned {
        Ok(merged) => exists|results: Seq<ValidationResult>| #[trigger]
            element_results(items, context, results) && merged@ == merge_all(
                results_view(results),
            ),
        Err(defect) => exists|i: int, earlier: Seq<ValidationResult>|
            0 <= i < items.len() && #[trigger] element_results(items.take(i), context, earlier)
                && validated_under(&items[i], element_context(context, i), Err(defect)),
    }
}

/// A result keeps the path faithful at `context`: it names at least one
/// reason where it failed, and every failure lies at `context` or below it.
pub open spec fn faithful(result: ValidationResultView, context: Seq<PathComponentView>) -> bool {
    result.well_formed() && result.located_under(context)
}

/// The position of the element that `reason` lies under, read from the step
/// that follows `context` in the reason's own path.
pub open spec fn element_index(reason: FailureReasonView, context: Seq<PathComponentView>) -> int {
    reason.context[context.len() as int]->index as int
}

/// Whatever result the validation of a `T` returns, it keeps the path
/// faithful at the context that the validation was given.
pub open spec fn validates_faithfully<T: Validate>() -> bool {
    forall|item: &T, given: ValidationContext, result: ValidationResult| #[trigger]
        call_ensures(T::validate_with_context, (item, given), Ok(result)) ==> faithful(
            result@,
            given@,
        )
}

/// The failures `reasons` of a sequence of `count` elements reached through
/// `context` each lie under the index of an element, and come in ascending
/// order of that index.
pub open spec fn ascending_by_element(
    reasons: Seq<FailureReasonView>,
    context: Seq<PathComponentView>,
    count: nat,
) -> bool {
    &&& forall|k: int|
        0 <= k < reasons.len() ==> 0 <= element_index(#[trigger] reasons[k], context) < count
            && element_context(context, element_index(reasons[k], context)).is_prefix_of(
            reasons[k].context,
        )
    &&& forall|j: int, k: int|
        0 <= j <= k < reasons.len() ==> element_index(#[trigger] reasons[j], context)
            <= element_index(#[trigger] reasons[k], context)
}

impl<T: Validate> Validate for Vec<T> {
    /// Validates every element under its own index and merges the results.
    /// No failure stops the walk; only a defect of the rules does.
    fn validate_with_context(&self, context: ValidationContext) -> (returned: Result<
        ValidationResult,
        ValidationError,
    >)
        ensures
            sequence_returned(self@, context@, returned),
            self@.len() == 0 ==> (returned matches Ok(merged) && merged@ is Passed),
            validates_faithfully::<T>() ==> (returned matches Ok(merged) ==> faithful(
                merged@,
                context@,
            ) && ascending_by_element(merged@.failures(), context@, self@.len())),
    {
        let mut merged = ValidationResult::Passed;
        let ghost mut results: Seq<ValidationResult> = Seq::empty();
        let mut i: usize = 0;
        while i < self.len()
            invariant
                i <= self.len(),
                element_results(self@.take(i as int), context@, results),
                merged@ == merge_all(results_view(results)),
            decreases self.len() - i,
        {
            let mut step: Vec<ValidationPathComponent> = Vec::new();
            step.push(ValidationPathComponent::Array { index: i });
            let inner = context.extend_context(step);
            assert(inner@ == element_context(context@, i as int));
            let returned = self[i].validate_with_context(inner);
            assert(validated_under(&self@[i as int], element_context(context@, i as int), returned));
            match returned {
                Err(defect) => {
                    return Err(defect);
                },
                Ok(result) => {
                    proof {
                        let longer = results.push(result);
                        assert(results_view(longer).drop_last() == results_view(results));
                        assert forall|j: int| 0 <= j < i + 1 implies validated_under(
                            &self@.take(i + 1)[j],
                            element_context(context@, j),
                            Ok(#[trigger] longer[j]),
                        ) by {
                            if j < i {
                                assert(self@.take(i as int)[j] == self@.take(i + 1)[j]);
                                assert(longer[j] == results[j]);
                            }
                        }
                        results = longer;
                    }
                    merged = merged.merge(result);
                },
            }
            i = i + 1;
        }
        assert(self@.take(i as int) == self@);
        proof {
            if validates_faithfully::<T>() {
                let parts = results_view(results);
                assert forall|j: int| 0 <= j < parts.len() implies faithful(
                    #[trigger] parts[j],
                    element_context(context@, j),
                ) by {
                    assert(validated_under(
                        &self@[j],
                        element_context(context@, j),
                        Ok(results[j]),
                    ));
                }
                lemma_sequence_faithful(context@, parts);
                lemma_sequence_failures_ascend(context@, parts);
            }
        }
        Ok(merged)
    }
}

/// Where the elements validate faithfully, so does a sequence of them.
pub proof fn lemma_sequences_validate_faithfully<T: Validate>()
    requires
        validates_faithfully::<T>(),
    ensures
        validates_faithfully::<Vec<T>>(),
{
}

/// The failures of an aggregate are those of its parts, in order.
pub proof fn lemma_merge_all_failures(results: Seq<ValidationResultView>)
    ensures
        results.len() > 0 ==> merge_all(results).failures() == merge_all(
            results.drop_last(),
        ).failures() + results.last().failures(),
        merge_all(results) is Passed <==> forall|i: int|
            0 <= i < results.len() ==> #[trigger] results[i] is Passed,
    decreases results.len(),
{
    if results.len() > 0 {
        let front = results.drop_last();
        lemma_merge_all_failures(front);
        lemma_merge_failures(merge_all(front), results.last());
        if merge_all(results) is Passed {
            assert forall|i: int| 0 <= i < results.len() implies #[trigger] results[i] is Passed by {
                if i < front.len() {
                    assert(front[i] is Passed);
                }
            }
        } else if merge_all(front) is Passed {
            assert(!(results[results.len() - 1] is Passed));
        } else {
            let i = choose|i: int| 0 <= i < front.len() && !(#[trigger] front[i] is Passed);
            assert(!(results[i] is Passed));
        }
    }
}

/// Where each element's result is faithful at the element's own context, the
/// aggregate is faithful at the context of the sequence.
pub proof fn lemma_sequence_faithful(
    context: Seq<PathComponentView>,
    results: Seq<ValidationResultView>,
)
    requires
        forall|i: int|
            0 <= i < results.len() ==> faithful(#[trigger] results[i], element_context(context, i)),
    ensures
        faithful(merge_all(results), context),
    decreases results.len(),
{
    if results.len() > 0 {
        let front = results.drop_last();
        let last = results.last();
        assert forall|i: int| 0 <= i < front.len() implies faithful(
            #[trigger] front[i],
            element_context(context, i),
        ) by {
            assert(front[i] == results[i]);
        }
        lemma_sequence_faithful(context, front);
        lemma_merge_failures(merge_all(front), last);
        let all = merge_all(results).failures();
        let inner = element_context(context, results.len() - 1);
        assert(faithful(last, inner));
        assert forall|k: int| 0 <= k < all.len() implies context.is_prefix_of(
            #[trigger] all[k].context,
        ) by {
            if k >= merge_all(front).failures().len() {
                let reason = last.failures()[k - merge_all(front).failures().len()];
                assert(inner.is_prefix_of(reason.context));
            } else {
                assert(all[k] == merge_all(front).failures()[k]);
            }
        }
    }
}

/// Where each element's result is faithful at the element's own context,
/// every failure of the aggregate lies under the index of an element that
/// failed, the failures come in ascending order of that index, and every
/// element that failed is reported.
pub proof fn lemma_sequence_failures_ascend(
    context: Seq<PathComponentView>,
    results: Seq<ValidationResultView>,
)
    requires
        forall|i: int|
            0 <= i < results.len() ==> faithful(#[trigger] results[i], element_context(context, i)),
    ensures
        forall|k: int|
            0 <= k < merge_all(results).failures().len() ==> {
                let reason = #[trigger] merge_all(results).failures()[k];
                let index = element_index(reason, context);
                &&& 0 <= index < results.len()
                &&& results[index] is Failed
                &&& element_context(context, index).is_prefix_of(reason.context)
                &&& reason.context[context.len() as int] == (PathComponentView::Array {
                    index: index as nat,
                })
            },
        forall|j: int, k: int|
            0 <= j <= k < merge_all(results).failures().len() ==> element_index(
                #[trigger] merge_all(results).failures()[j],
                context,
            ) <= element_index(#[trigger] merge_all(results).failures()[k], context),
        forall|i: int|
            0 <= i < results.len() && #[trigger] results[i] is Failed ==> exists|k: int|
                0 <= k < merge_all(results).failures().len() && element_index(
                    #[trigger] merge_all(results).failures()[k],
                    context,
                ) == i,
    decreases results.len(),
{
    if results.len() > 0 {
        let front = results.drop_last();
        let last = results.len() - 1;
        let inner = element_context(context, last);
        let result = results.last();
        let earlier = merge_all(front).failures();
        let all = merge_all(results).failures();
        assert forall|i: int| 0 <= i < front.len() implies faithful(
            #[trigger] front[i],
            element_context(context, i),
        ) by {
            assert(front[i] == results[i]);
        }
        lemma_sequence_failures_ascend(context, front);
        lemma_merge_failures(merge_all(front), result);
        assert(faithful(result, inner));
        assert(all == earlier + result.failures());
        assert forall|k: int| 0 <= k < all.len() implies {
            let reason = #[trigger] all[k];
            let index = element_index(reason, context);
            &&& 0 <= index < results.len()
            &&& results[index] is Failed
            &&& element_context(context, index).is_prefix_of(reason.context)
            &&& reason.context[context.len() as int] == (PathComponentView::Array {
                index: index as nat,
            })
            &&& k < earlier.len() ==> index < last
            &&& k >= earlier.len() ==> index == last
        } by {
            let reason = all[k];
            if k < earlier.len() {
                assert(reason == earlier[k]);
                let index = element_index(reason, context);
                assert(front[index] == results[index]);
            } else {
                assert(reason == result.failures()[k - earlier.len()]);
                assert(inner.is_prefix_of(reason.context));
                assert(reason.context.subrange(0, inner.len() as int)[context.len() as int]
                    == inner[context.len() as int]);
            }
        }
        assert forall|i: int| 0 <= i < results.len() && #[trigger] results[i] is Failed implies exists|
            k: int,
        |
            0 <= k < all.len() && element_index(#[trigger] all[k], context) == i by {
            if i < last {
                assert(front[i] == results[i]);
                let k = choose|k: int|
                    0 <= k < earlier.len() && element_index(#[trigger] earlier[k], context) == i;
                assert(all[k] == earlier[k]);
            } else {
                let k = earlier.len() as int;
                assert(result.failures().len() > 0);
                assert(element_index(all[k], context) == i);
            }
        }
    }
}

/// The result of a field that violates a constraint of its own: one reason,
/// located at the field.
pub open spec fn fails_at_field(
    result: ValidationResultView,
    context: Seq<PathComponentView>,
    struct_name: Seq<char>,
    field_name: Seq<char>,
) -> bool {
    &&& result is Failed
    &&& result.failures().len() == 1
    &&& result.failures()[0].context == field_context(context, struct_name, field_name)
}

/// Where each field of a struct fails on its own, the aggregate of the
/// fields' results holds exactly one reason for each field, in the order of
/// the fields, each located at the step that names its field; fields with
/// different names are reported at different steps.
pub proof fn lemma_struct_fields_each_reported(
    context: Seq<PathComponentView>,
    struct_name: Seq<char>,
    field_names: Seq<Seq<char>>,
    results: Seq<ValidationResultView>,
)
    requires
        results.len() == field_names.len(),
        forall|i: int|
            0 <= i < results.len() ==> fails_at_field(
                #[trigger] results[i],
                context,
                struct_name,
                field_names[i],
            ),
    ensures
        merge_all(results).failures().len() == results.len(),
        results.len() > 0 ==> merge_all(results) is Failed,
        forall|i: int|
            0 <= i < results.len() ==> #[trigger] merge_all(results).failures()[i]
                == results[i].failures()[0],
        forall|i: int|
            0 <= i < results.len() ==> (#[trigger] merge_all(results).failures()[i]).context.last()
                == (PathComponentView::Struct { struct_name, field_name: field_names[i] }),
        forall|i: int, j: int|
            0 <= i < results.len() && 0 <= j < results.len() && field_names[i] != field_names[j]
                ==> (#[trigger] merge_all(results).failures()[i]).context.last() != (
            #[trigger] merge_all(results).failures()[j]).context.last(),
    decreases results.len(),
{
    if results.len() > 0 {
        let front = results.drop_last();
        lemma_struct_fields_each_reported(context, struct_name, field_names.drop_last(), front);
        lemma_merge_failures(merge_all(front), results.last());
        let all = merge_all(results).failures();
        assert(all == merge_all(front).failures() + results.last().failures());
        assert forall|i: int| 0 <= i < results.len() implies #[trigger] all[i]
            == results[i].failures()[0] by {
            if i < front.len() {
                assert(all[i] == merge_all(front).failures()[i]);
                assert(front[i] == results[i]);
            }
        }
        assert forall|i: int| 0 <= i < results.len() implies (#[trigger] all[i]).context.last()
            == (PathComponentView::Struct { struct_name, field_name: field_names[i] }) by {
            assert(fails_at_field(results[i], context, struct_name, field_names[i]));
        }
    }
}

} // verus!
