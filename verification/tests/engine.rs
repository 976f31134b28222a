use cyclonedx_core::validation::{
    FailureReason, Validate, ValidationContext, ValidationError, ValidationPathComponent,
    ValidationResult,
};

fn field(struct_name: &str, field_name: &str) -> ValidationPathComponent {
    ValidationPathComponent::Struct {
        struct_name: struct_name.to_string(),
        field_name: field_name.to_string(),
    }
}

fn index(index: usize) -> ValidationPathComponent {
    ValidationPathComponent::Array { index }
}

fn reason(message: &str, path: Vec<ValidationPathComponent>) -> FailureReason {
    FailureReason {
        message: message.to_string(),
        context: ValidationContext(path),
    }
}

fn failed(reasons: Vec<FailureReason>) -> ValidationResult {
    ValidationResult::Failed { reasons }
}

/// A leaf with a constraint of its own: its text may not be empty.
struct Name(&'static str);

impl Validate for Name {
    fn validate_with_context(
        &self,
        context: ValidationContext,
    ) -> Result<ValidationResult, ValidationError> {
        if self.0.is_empty() {
            Ok(failed(vec![FailureReason {
                message: "Name is empty".to_string(),
                context,
            }]))
        } else {
            Ok(ValidationResult::Passed)
        }
    }
}

/// A leaf whose own pattern is broken where `self.0` does not compile.
struct Checked(&'static str);

impl Validate for Checked {
    fn validate_with_context(
        &self,
        context: ValidationContext,
    ) -> Result<ValidationResult, ValidationError> {
        let pattern = regex::Regex::new(self.0)?;
        if pattern.is_match("tacos") {
            Ok(ValidationResult::Passed)
        } else {
            Ok(failed(vec![FailureReason {
                message: "Text does not match".to_string(),
                context,
            }]))
        }
    }
}

/// A struct with three fields, each of them validatable.
struct Person {
    first: Name,
    last: Name,
    aliases: Vec<Name>,
}

impl Validate for Person {
    fn validate_with_context(
        &self,
        context: ValidationContext,
    ) -> Result<ValidationResult, ValidationError> {
        let results = vec![
            self.first
                .validate_with_context(context.extend_context_with_struct_field("Person", "first"))?,
            self.last
                .validate_with_context(context.extend_context_with_struct_field("Person", "last"))?,
            self.aliases.validate_with_context(
                context.extend_context_with_struct_field("Person", "aliases"),
            )?,
        ];
        Ok(ValidationResult::merge_all(results))
    }
}

/// A tagged union: only the selected variant is visited.
enum Contact {
    Individual(Person),
    Team(Vec<Person>),
}

impl Validate for Contact {
    fn validate_with_context(
        &self,
        context: ValidationContext,
    ) -> Result<ValidationResult, ValidationError> {
        match self {
            Contact::Individual(person) => {
                person.validate_with_context(context.extend_context(vec![
                    ValidationPathComponent::EnumVariant {
                        variant_name: "Individual".to_string(),
                    },
                ]))
            }
            Contact::Team(people) => people.validate_with_context(context.extend_context(vec![
                ValidationPathComponent::EnumVariant {
                    variant_name: "Team".to_string(),
                },
            ])),
        }
    }
}

#[test]
fn passed_is_neutral_for_merge() {
    let some = || failed(vec![reason("a", vec![index(0)]), reason("b", vec![])]);
    assert_eq!(ValidationResult::Passed.merge(some()), some());
    assert_eq!(some().merge(ValidationResult::Passed), some());
    assert_eq!(
        ValidationResult::Passed.merge(ValidationResult::Passed),
        ValidationResult::Passed
    );
    assert_eq!(ValidationResult::default(), ValidationResult::Passed);
}

#[test]
fn merge_joins_reasons_left_first() {
    let left = failed(vec![reason("a", vec![index(1)]), reason("b", vec![index(0)])]);
    let right = failed(vec![reason("a", vec![index(1)]), reason("c", vec![])]);
    assert_eq!(
        left.merge(right),
        failed(vec![
            reason("a", vec![index(1)]),
            reason("b", vec![index(0)]),
            reason("a", vec![index(1)]),
            reason("c", vec![]),
        ])
    );
}

#[test]
fn merge_all_folds_in_order() {
    assert_eq!(ValidationResult::merge_all(vec![]), ValidationResult::Passed);
    assert_eq!(
        ValidationResult::merge_all(vec![ValidationResult::Passed, ValidationResult::Passed]),
        ValidationResult::Passed
    );
    assert_eq!(
        ValidationResult::merge_all(vec![
            failed(vec![reason("a", vec![])]),
            ValidationResult::Passed,
            failed(vec![reason("b", vec![]), reason("c", vec![])]),
            failed(vec![reason("d", vec![])]),
        ]),
        failed(vec![
            reason("a", vec![]),
            reason("b", vec![]),
            reason("c", vec![]),
            reason("d", vec![]),
        ])
    );
}

#[test]
fn merge_is_associative_on_examples() {
    let a = || failed(vec![reason("a", vec![])]);
    let b = || ValidationResult::Passed;
    let c = || failed(vec![reason("c", vec![index(2)])]);
    assert_eq!(a().merge(b()).merge(c()), a().merge(b().merge(c())));
    assert_eq!(b().merge(a()).merge(c()), b().merge(a().merge(c())));
}

#[test]
fn extending_a_context_leaves_it_as_it_was() {
    let root = ValidationContext::default();
    assert_eq!(root, ValidationContext(vec![]));
    let person = root.extend_context_with_struct_field("Person", "first");
    assert_eq!(root, ValidationContext(vec![]));
    assert_eq!(person, ValidationContext(vec![field("Person", "first")]));
    let deeper = person.extend_context(vec![index(3), field("Name", "text")]);
    assert_eq!(person, ValidationContext(vec![field("Person", "first")]));
    assert_eq!(
        deeper,
        ValidationContext(vec![
            field("Person", "first"),
            index(3),
            field("Name", "text")
        ])
    );
    let sibling = person.extend_context(vec![index(4)]);
    assert_eq!(
        sibling,
        ValidationContext(vec![field("Person", "first"), index(4)])
    );
    assert_eq!(person.extend_context(vec![]), person);
    assert_eq!(deeper.clone(), deeper);
}

#[test]
fn each_invalid_field_is_reported_at_its_own_field() {
    let person = Person {
        first: Name(""),
        last: Name(""),
        aliases: vec![Name("")],
    };
    assert_eq!(
        person.validate(),
        Ok(failed(vec![
            reason("Name is empty", vec![field("Person", "first")]),
            reason("Name is empty", vec![field("Person", "last")]),
            reason("Name is empty", vec![field("Person", "aliases"), index(0)]),
        ]))
    );
}

#[test]
fn invalid_elements_are_reported_in_ascending_order() {
    let names = vec![Name("a"), Name(""), Name("c"), Name(""), Name("")];
    let context = ValidationContext::default().extend_context_with_struct_field("Team", "names");
    assert_eq!(
        names.validate_with_context(context),
        Ok(failed(vec![
            reason("Name is empty", vec![field("Team", "names"), index(1)]),
            reason("Name is empty", vec![field("Team", "names"), index(3)]),
            reason("Name is empty", vec![field("Team", "names"), index(4)]),
        ]))
    );
}

#[test]
fn empty_and_valid_sequences_pass() {
    let none: Vec<Name> = vec![];
    assert_eq!(none.validate(), Ok(ValidationResult::Passed));
    assert_eq!(
        vec![Name("a"), Name("b")].validate(),
        Ok(ValidationResult::Passed)
    );
    let valid = Person {
        first: Name("Ada"),
        last: Name("Lovelace"),
        aliases: vec![],
    };
    assert_eq!(valid.validate(), Ok(ValidationResult::Passed));
}

#[test]
fn validate_starts_from_the_empty_context() {
    assert_eq!(
        vec![Name("")].validate(),
        Ok(failed(vec![reason("Name is empty", vec![index(0)])]))
    );
    assert_eq!(
        Name("").validate(),
        Ok(failed(vec![reason("Name is empty", vec![])]))
    );
}

#[test]
fn nested_structures_report_the_whole_path() {
    let team = Contact::Team(vec![
        Person {
            first: Name("Ada"),
            last: Name(""),
            aliases: vec![Name("x"), Name("")],
        },
        Person {
            first: Name(""),
            last: Name("Hopper"),
            aliases: vec![],
        },
    ]);
    let variant = || ValidationPathComponent::EnumVariant {
        variant_name: "Team".to_string(),
    };
    assert_eq!(
        team.validate(),
        Ok(failed(vec![
            reason(
                "Name is empty",
                vec![variant(), index(0), field("Person", "last")]
            ),
            reason(
                "Name is empty",
                vec![variant(), index(0), field("Person", "aliases"), index(1)]
            ),
            reason(
                "Name is empty",
                vec![variant(), index(1), field("Person", "first")]
            ),
        ]))
    );
    let individual = Contact::Individual(Person {
        first: Name(""),
        last: Name("Hopper"),
        aliases: vec![],
    });
    assert_eq!(
        individual.validate(),
        Ok(failed(vec![reason(
            "Name is empty",
            vec![
                ValidationPathComponent::EnumVariant {
                    variant_name: "Individual".to_string()
                },
                field("Person", "first")
            ]
        )]))
    );
}

#[test]
fn a_broken_pattern_is_a_hard_error() {
    let broken = regex::Regex::new("(").unwrap_err();
    assert_eq!(
        Checked("(").validate(),
        Err(ValidationError::InvalidRegularExpressionError(
            broken.clone()
        ))
    );
    assert_eq!(
        ValidationError::from(broken.clone()),
        ValidationError::InvalidRegularExpressionError(broken.clone())
    );
    assert_eq!(Checked("^ta").validate(), Ok(ValidationResult::Passed));
    assert_eq!(
        Checked("^co").validate(),
        Ok(failed(vec![reason("Text does not match", vec![])]))
    );
    let checks = vec![Checked("^co"), Checked("("), Checked("["), Checked("^zz")];
    assert_eq!(
        checks.validate(),
        Err(ValidationError::InvalidRegularExpressionError(broken))
    );
}

#[test]
fn reasons_and_components_are_cloned_whole() {
    let original = reason("a", vec![field("S", "f"), index(7)]);
    assert_eq!(original.clone(), original);
    let variant = ValidationPathComponent::EnumVariant {
        variant_name: "V".to_string(),
    };
    assert_eq!(variant.clone(), variant);
    assert_eq!(index(9).clone(), index(9));
    assert_eq!(field("S", "f").clone(), field("S", "f"));
}
