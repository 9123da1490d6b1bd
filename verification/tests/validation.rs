use libosbuild::manifest::description::v1;
use libosbuild::manifest::description::v2;
use libosbuild::manifest::description::validation;
use libosbuild::manifest::description::{ValidationError, ValidationPath};
use libosbuild::manifest::meta;
use libosbuild::manifest::path::{Part, Path};
use libosbuild::manifest::validate;
use libosbuild::manifest::validate::{Schema, ValidationResult};
use libosbuild::manifest::{Manifest, Version};

#[test]
fn validation_result_no_error_valid() {
    let result = ValidationResult::new(String::new());
    let valid: bool = result.into();

    assert_eq!(valid, true);
}

#[test]
fn validation_result_error_invalid() {
    let mut result = ValidationResult::new(String::new());
    result.fail("booboo".to_string());
    let valid: bool = result.into();

    assert_eq!(valid, false);
}

#[test]
fn schema_without_data_is_invalid() {
    let schema = Schema {
        name: Some("name".to_string()),
        data: None,
    };
    let valid = schema.is_valid();

    assert_eq!(valid, false);
}

#[test]
fn schema_with_data_is_valid() {
    let schema = Schema {
        name: Some("name".to_string()),
        data: Some("data".to_string()),
    };
    let valid = schema.is_valid();

    assert_eq!(valid, true);
}

#[test]
fn test_validation_result_no_error_valid() {
    let result = validation::Result::new();
    let valid: bool = result.into();

    assert_eq!(valid, true);
}

#[test]
fn test_validation_result_error_invalid() {
    let mut result = validation::Result::new();
    result.add_error(validation::Failure {
        message: "booboo".to_string(),
        path: Path(vec![]),
    });
    let valid: bool = result.into();

    assert_eq!(valid, false);
}

#[test]
fn test_schema_without_data_is_invalid() {
    let schema = Schema::new(Some("name".to_string()), None);
    let valid = schema.is_valid();

    assert_eq!(valid, false);
}

#[test]
fn test_schema_with_data_is_valid() {
    let schema = Schema::new(Some("name".to_string()), Some("data".to_string()));
    let valid = schema.is_valid();

    assert_eq!(valid, true);
}

#[test]
fn validation_error_id() {
    let test0 = ValidationError {
        message: String::new(),
        path: vec![ValidationPath::Name("foo".to_string())],
    };

    assert_eq!(test0.id().unwrap(), ".foo".to_string());

    let test1 = ValidationError {
        message: String::new(),
        path: vec![
            ValidationPath::Name("foo".to_string()),
            ValidationPath::Name("bar".to_string()),
        ],
    };

    assert_eq!(test1.id().unwrap(), ".foo.bar".to_string());

    let test2 = ValidationError {
        message: String::new(),
        path: vec![
            ValidationPath::Name("foo".to_string()),
            ValidationPath::Name("bar".to_string()),
            ValidationPath::Index(1337),
        ],
    };

    assert_eq!(test2.id().unwrap(), ".foo.bar[1337]".to_string());

    let test3 = ValidationError {
        message: String::new(),
        path: vec![
            ValidationPath::Name("foo".to_string()),
            ValidationPath::Index(42),
            ValidationPath::Name("bar".to_string()),
            ValidationPath::Index(1337),
        ],
    };

    assert_eq!(test3.id().unwrap(), ".foo[42].bar[1337]".to_string());

    let test4 = ValidationError {
        message: String::new(),
        path: vec![ValidationPath::Index(42), ValidationPath::Index(1337)],
    };

    assert_eq!(test4.id().unwrap(), "[42][1337]".to_string());
}

#[test]
fn v1_dummy() {
    assert_eq!(1, 1);
}

#[test]
fn v2_dummy() {
    assert_eq!(1, 1);
}

#[test]
fn mod_dummy() {
    assert_eq!(1, 1);
}

#[test]
fn validation_error_id_of_the_root_and_of_quoted_names() {
    let root = ValidationError {
        message: "nothing here".to_string(),
        path: vec![],
    };
    assert_eq!(root.id().unwrap(), ".");

    let quoted = ValidationError {
        message: String::new(),
        path: vec![
            ValidationPath::Name("org.osbuild.rpm".to_string()),
            ValidationPath::Name("gpg keys".to_string()),
            ValidationPath::Index(0),
        ],
    };
    assert_eq!(quoted.id().unwrap(), ".org.osbuild.rpm.'gpg keys'[0]");
}

#[test]
fn ids_follow_the_path() {
    let error = validate::ValidationError {
        message: "no such stage".to_string(),
        path: Path::new(vec![
            Part::Name("pipelines".to_string()),
            Part::Index(3),
            Part::Name("stages".to_string()),
        ]),
    };
    assert_eq!(error.id(), ".pipelines[3].stages");

    let failure = validation::Failure {
        message: String::new(),
        path: Path::new(vec![]),
    };
    assert_eq!(failure.id(), ".");
}

#[test]
fn added_and_merged_errors_make_a_result_invalid() {
    let mut result = ValidationResult::new("manifest".to_string());
    result.add(validate::ValidationError {
        message: "first".to_string(),
        path: Path::new(vec![Part::Index(1)]),
    });
    let valid: bool = result.into();
    assert!(!valid);

    let mut outer = ValidationResult::new("outer".to_string());
    let mut inner = ValidationResult::new("inner".to_string());
    inner.fail("inner failed".to_string());
    outer.merge(inner, vec![]);
    let valid: bool = outer.into();
    assert!(!valid);

    let mut outer = ValidationResult::new("outer".to_string());
    outer.merge(ValidationResult::new("inner".to_string()), vec![Path::new(vec![])]);
    let valid: bool = outer.into();
    assert!(valid);
}

#[test]
fn description_results_collect_errors() {
    let mut result = libosbuild::manifest::description::ValidationResult {
        origin: None,
        errors: vec![],
    };
    result.fail("booboo".to_string());
    assert_eq!(result.errors.len(), 1);
    assert_eq!(result.errors[0].message, "booboo");
    assert!(result.errors[0].path.is_empty());

    let mut other = libosbuild::manifest::description::ValidationResult {
        origin: Some("other".to_string()),
        errors: vec![],
    };
    other.add(ValidationError {
        message: "first".to_string(),
        path: vec![ValidationPath::Index(2)],
    });
    other.merge(result, vec![ValidationPath::Name("unused".to_string())]);
    assert_eq!(other.errors.len(), 2);
    assert_eq!(other.errors[0].message, "first");
    assert_eq!(other.errors[1].message, "booboo");
    assert_eq!(other.origin.as_deref(), Some("other"));
    let valid: bool = other.into();
    assert!(!valid);

    let empty = libosbuild::manifest::description::ValidationResult {
        origin: None,
        errors: vec![],
    };
    let valid: bool = empty.into();
    assert!(valid);
}

#[test]
fn validating_against_a_schema_finds_nothing() {
    let schema = Schema::new(Some("name".to_string()), None);
    let target = Schema::new(None, None);
    let valid: bool = schema.validate(target).into();
    assert!(valid);
}

#[test]
fn checking_a_schema_reports_missing_data() {
    let without = meta::Schema {
        name: Some("org.osbuild.rpm".to_string()),
        data: None,
    };
    let valid: bool = without.check().into();
    assert!(!valid);

    let with = meta::Schema {
        name: Some("org.osbuild.rpm".to_string()),
        data: Some("{}".to_string()),
    };
    let valid: bool = with.check().into();
    assert!(valid);

    let schema = meta::Schema {
        name: Some("a".to_string()),
        data: None,
    };
    let target = meta::Schema {
        name: None,
        data: None,
    };
    let valid: bool = schema.validate(target).into();
    assert!(valid);
}

#[test]
fn describing_a_manifest_sets_its_version() {
    let described = v1::describe(Manifest { version: Version::V2 }, true).unwrap();
    assert_eq!(described.version, Version::V1);

    let described = v2::describe(Manifest { version: Version::V1 }, false).unwrap();
    assert_eq!(described.version, Version::V2);
}
