//! The errors of the library.

use vstd::prelude::*;

use crate::language::{language_display_name, Language};

verus! {

/// What stops a generation.
#[derive(Debug, Clone)]
pub enum Error {
    /// A generated file would leave the output directory.
    InvalidGeneratedPath { path: String, reason: String },
    /// Two sources generate a file at the same path.
    GeneratedFileSourceConflict {
        path: String,
        first_source: String,
        second_source: String,
        remedy: String,
    },
    /// There is no generator for the language.
    UnsupportedLanguage { language: Language },
    /// The output path resolves to a path without a name.
    OutputPathIsRoot { path: String },
    /// A file stands where the output directory should be.
    OutputPathExists { path: String },
    /// Java output needs a package name.
    JavaPackageNameMissing,
    /// The last segment of the Java package name is not the output directory's name.
    JavaPackageNameMismatch {
        package_name: String,
        last_segment: String,
        output_dir_name: String,
    },
    /// The WIT input cannot be parsed.
    WitParse { path: String, message: String },
    /// The WIT input cannot be used.
    InvalidWit { path: String, reason: String },
    /// A directive in the WIT input cannot be used.
    InvalidWitDirective { path: String, context: String, directive: String, reason: String },
    /// A type override gives conversions without a type.
    IncompleteTypeOverride { named: String },
    /// An output transform lacks its type or its expression.
    IncompleteOperationOutputTransform { service: String, operation: String },
    /// Two properties of a field exclude each other.
    ConflictingTypeOverrideFieldProperties {
        message: String,
        field: String,
        property: String,
        conflicting_property: String,
    },
    /// A property of a field cannot be used.
    InvalidTypeOverrideField { message: String, field: String, property: String, reason: String },
    /// The language has no conversion of a protobuf oneof.
    UnsupportedProtoOneofConversion { language: Language, message: String, oneof: String },
    /// The language has no conversion of a generic protobuf carrier.
    UnsupportedProtoGenericCarrierConversion {
        language: Language,
        message: String,
        field: String,
    },
    /// A value has no Go protobuf conversion.
    UnsupportedGoProtoConversion { context: String, reason: String },
    /// A resource is bound to something that does not exist.
    InvalidResource { service: String, resource: String, reason: String },
    /// A JSON schema cannot be rendered.
    InvalidJsonSchema { path: String, reason: String },
}

/// An [`Error`] with its texts as sequences of characters.
#[verifier::ext_equal]
pub enum ErrorView {
    InvalidGeneratedPath { path: Seq<char>, reason: Seq<char> },
    GeneratedFileSourceConflict {
        path: Seq<char>,
        first_source: Seq<char>,
        second_source: Seq<char>,
        remedy: Seq<char>,
    },
    UnsupportedLanguage { language: Language },
    OutputPathIsRoot { path: Seq<char> },
    OutputPathExists { path: Seq<char> },
    JavaPackageNameMissing,
    JavaPackageNameMismatch {
        package_name: Seq<char>,
        last_segment: Seq<char>,
        output_dir_name: Seq<char>,
    },
    WitParse { path: Seq<char>, message: Seq<char> },
    InvalidWit { path: Seq<char>, reason: Seq<char> },
    InvalidWitDirective {
        path: Seq<char>,
        context: Seq<char>,
        directive: Seq<char>,
        reason: Seq<char>,
    },
    IncompleteTypeOverride { named: Seq<char> },
    IncompleteOperationOutputTransform { service: Seq<char>, operation: Seq<char> },
    ConflictingTypeOverrideFieldProperties {
        message: Seq<char>,
        field: Seq<char>,
        property: Seq<char>,
        conflicting_property: Seq<char>,
    },
    InvalidTypeOverrideField {
        message: Seq<char>,
        field: Seq<char>,
        property: Seq<char>,
        reason: Seq<char>,
    },
    UnsupportedProtoOneofConversion { language: Language, message: Seq<char>, oneof: Seq<char> },
    UnsupportedProtoGenericCarrierConversion {
        language: Language,
        message: Seq<char>,
        field: Seq<char>,
    },
    UnsupportedGoProtoConversion { context: Seq<char>, reason: Seq<char> },
    InvalidResource { service: Seq<char>, resource: Seq<char>, reason: Seq<char> },
    InvalidJsonSchema { path: Seq<char>, reason: Seq<char> },
}

impl View for Error {
    type V = ErrorView;

    open spec fn view(&self) -> ErrorView {
        match self {
            Error::InvalidGeneratedPath { path, reason } => ErrorView::InvalidGeneratedPath {
                path: path@,
                reason: reason@,
            },
            Error::GeneratedFileSourceConflict {
                path,
                first_source,
                second_source,
                remedy,
            } => ErrorView::GeneratedFileSourceConflict {
                path: path@,
                first_source: first_source@,
                second_source: second_source@,
                remedy: remedy@,
            },
            Error::UnsupportedLanguage { language } => ErrorView::UnsupportedLanguage {
                language: *language,
            },
            Error::OutputPathIsRoot { path } => ErrorView::OutputPathIsRoot {
                path: path@,
            },
            Error::OutputPathExists { path } => ErrorView::OutputPathExists {
                path: path@,
            },
            Error::JavaPackageNameMissing => ErrorView::JavaPackageNameMissing,
            Error::JavaPackageNameMismatch {
                package_name,
                last_segment,
                output_dir_name,
            } => ErrorView::JavaPackageNameMismatch {
                package_name: package_name@,
                last_segment: last_segment@,
                output_dir_name: output_dir_name@,
            },
            Error::WitParse { path, message } => ErrorView::WitParse {
                path: path@,
                message: message@,
            },
            Error::InvalidWit { path, reason } => ErrorView::InvalidWit {
                path: path@,
                reason: reason@,
            },
            Error::InvalidWitDirective {
                path,
                context,
                directive,
                reason,
            } => ErrorView::InvalidWitDirective {
                path: path@,
                context: context@,
                directive: directive@,
                reason: reason@,
            },
            Error::IncompleteTypeOverride { named } => ErrorView::IncompleteTypeOverride {
                named: named@,
            },
            Error::IncompleteOperationOutputTransform { service, operation } => ErrorView::IncompleteOperationOutputTransform {
                service: service@,
                operation: operation@,
            },
            Error::ConflictingTypeOverrideFieldProperties {
                message,
                field,
                property,
                conflicting_property,
            } => ErrorView::ConflictingTypeOverrideFieldProperties {
                message: message@,
                field: field@,
                property: property@,
                conflicting_property: conflicting_property@,
            },
            Error::InvalidTypeOverrideField {
                message,
                field,
                property,
                reason,
            } => ErrorView::InvalidTypeOverrideField {
                message: message@,
                field: field@,
                property: property@,
                reason: reason@,
            },
            Error::UnsupportedProtoOneofConversion {
                language,
                message,
                oneof,
            } => ErrorView::UnsupportedProtoOneofConversion {
                language: *language,
                message: message@,
                oneof: oneof@,
            },
            Error::UnsupportedProtoGenericCarrierConversion {
                language,
                message,
                field,
            } => ErrorView::UnsupportedProtoGenericCarrierConversion {
                language: *language,
                message: message@,
                field: field@,
            },
            Error::UnsupportedGoProtoConversion { context, reason } => ErrorView::UnsupportedGoProtoConversion {
                context: context@,
                reason: reason@,
            },
            Error::InvalidResource { service, resource, reason } => ErrorView::InvalidResource {
                service: service@,
                resource: resource@,
                reason: reason@,
            },
            Error::InvalidJsonSchema { path, reason } => ErrorView::InvalidJsonSchema {
                path: path@,
                reason: reason@,
            },
        }
    }
}

/// An outcome by what its value shows.
pub open spec fn outcome<T: View>(result: Result<T, Error>) -> Result<T::V, ErrorView> {
    match result {
        Ok(value) => Ok(value@),
        Err(error) => Err(error@),
    }
}

/// The outcome of looking for something, by what is shown of it.
pub open spec fn opt_outcome<T: View>(result: Result<Option<T>, Error>) -> Result<
    Option<T::V>,
    ErrorView,
> {
    match result {
        Ok(Some(value)) => Ok(Some(value@)),
        Ok(None) => Ok(None),
        Err(error) => Err(error@),
    }
}

/// What is said of an error.
pub open spec fn error_message(error: ErrorView) -> Seq<char> {
    match error {
        ErrorView::InvalidGeneratedPath { path, reason } => "invalid generated path `"@ + path
            + "`: "@ + reason,
        ErrorView::GeneratedFileSourceConflict {
            path,
            first_source,
            second_source,
            remedy,
        } => "generated file `"@
            + path + "` has two sources, "@ + first_source + " and "@ + second_source + "; "@
            + remedy,
        ErrorView::UnsupportedLanguage { language } => crate::language::display_name(language)
            + " is not a supported language"@,
        ErrorView::OutputPathIsRoot { path } => "output path `"@ + path
            + "` has no directory name"@,
        ErrorView::OutputPathExists { path } => "output path `"@ + path + "` already exists"@,
        ErrorView::JavaPackageNameMissing => "Java output needs a package name"@,
        ErrorView::JavaPackageNameMismatch {
            package_name,
            last_segment,
            output_dir_name,
        } => "the last segment `"@
            + last_segment + "` of the Java package `"@ + package_name
            + "` is not the name of the output directory `"@ + output_dir_name + "`"@,
        ErrorView::WitParse { path, message } => "failed to parse WIT `"@ + path + "`: "@ + message,
        ErrorView::InvalidWit { path, reason } => "invalid WIT `"@ + path + "`: "@ + reason,
        ErrorView::InvalidWitDirective {
            path,
            context,
            directive,
            reason,
        } => "invalid WIT directive "@
            + directive + " on "@ + context + " in `"@ + path + "`: "@ + reason,
        ErrorView::IncompleteTypeOverride { named } => "the type override of `"@ + named
            + "` gives conversions without a type"@,
        ErrorView::IncompleteOperationOutputTransform { service, operation } => "the output transform of `"@
            + service + "."@ + operation + "` must give a type and an expression"@,
        ErrorView::ConflictingTypeOverrideFieldProperties {
            message,
            field,
            property,
            conflicting_property,
        } => "field `"@
            + field + "` of "@ + message + " cannot have both `"@ + property + "` and `"@
            + conflicting_property + "`"@,
        ErrorView::InvalidTypeOverrideField { message, field, property, reason } => "invalid `"@
            + property + "` of field `"@ + field + "` of "@ + message + ": "@ + reason,
        ErrorView::UnsupportedProtoOneofConversion {
            language,
            message,
            oneof,
        } => crate::language::display_name(language)
            + " has no conversion of the oneof `"@ + oneof + "` of `"@ + message + "`"@,
        ErrorView::UnsupportedProtoGenericCarrierConversion {
            language,
            message,
            field,
        } => crate::language::display_name(language)
            + " has no conversion of the generic field `"@ + field + "` of `"@ + message + "`"@,
        ErrorView::UnsupportedGoProtoConversion { context, reason } => context
            + " has no Go protobuf conversion: "@ + reason,
        ErrorView::InvalidResource { service, resource, reason } => "invalid resource `"@ + resource
            + "` of service `"@ + service + "`: "@ + reason,
        ErrorView::InvalidJsonSchema { path, reason } => "invalid JSON schema `"@ + path + "`: "@
            + reason,
    }
}

impl Error {
    /// What is said of an error.
    pub fn message(&self) -> (text: String)
        ensures
            text@ == error_message(self@),
    {
        match self {
            Error::InvalidGeneratedPath { path, reason } => "invalid generated path `".to_owned()
                .concat(path.as_str()).concat("`: ").concat(reason.as_str()),
            Error::GeneratedFileSourceConflict {
                path,
                first_source,
                second_source,
                remedy,
            } => "generated file `".to_owned()
                .concat(path.as_str()).concat("` has two sources, ").concat(first_source.as_str())
                .concat(" and ").concat(second_source.as_str()).concat("; ")
                .concat(remedy.as_str()),
            Error::UnsupportedLanguage { language } => language_display_name(*language).to_owned().concat(
                " is not a supported language",
            ),
            Error::OutputPathIsRoot { path } => "output path `".to_owned().concat(path.as_str())
                .concat("` has no directory name"),
            Error::OutputPathExists { path } => "output path `".to_owned().concat(path.as_str())
                .concat("` already exists"),
            Error::JavaPackageNameMissing => "Java output needs a package name".to_owned(),
            Error::JavaPackageNameMismatch {
                package_name,
                last_segment,
                output_dir_name,
            } => "the last segment `".to_owned()
                .concat(last_segment.as_str()).concat("` of the Java package `")
                .concat(package_name.as_str()).concat("` is not the name of the output directory `")
                .concat(output_dir_name.as_str()).concat("`"),
            Error::WitParse { path, message } => "failed to parse WIT `".to_owned()
                .concat(path.as_str()).concat("`: ").concat(message.as_str()),
            Error::InvalidWit { path, reason } => "invalid WIT `".to_owned().concat(path.as_str())
                .concat("`: ").concat(reason.as_str()),
            Error::InvalidWitDirective {
                path,
                context,
                directive,
                reason,
            } => "invalid WIT directive ".to_owned()
                .concat(directive.as_str()).concat(" on ").concat(context.as_str()).concat(" in `")
                .concat(path.as_str()).concat("`: ").concat(reason.as_str()),
            Error::IncompleteTypeOverride { named } => "the type override of `".to_owned()
                .concat(named.as_str()).concat("` gives conversions without a type"),
            Error::IncompleteOperationOutputTransform { service, operation } => "the output transform of `".to_owned()
                .concat(service.as_str()).concat(".").concat(operation.as_str())
                .concat("` must give a type and an expression"),
            Error::ConflictingTypeOverrideFieldProperties {
                message,
                field,
                property,
                conflicting_property,
            } => "field `".to_owned()
                .concat(field.as_str()).concat("` of ").concat(message.as_str())
                .concat(" cannot have both `").concat(property.as_str()).concat("` and `")
                .concat(conflicting_property.as_str()).concat("`"),
            Error::InvalidTypeOverrideField {
                message,
                field,
                property,
                reason,
            } => "invalid `".to_owned()
                .concat(property.as_str()).concat("` of field `").concat(field.as_str())
                .concat("` of ").concat(message.as_str()).concat(": ").concat(reason.as_str()),
            Error::UnsupportedProtoOneofConversion {
                language,
                message,
                oneof,
            } => language_display_name(*language).to_owned()
                .concat(" has no conversion of the oneof `").concat(oneof.as_str()).concat("` of `")
                .concat(message.as_str()).concat("`"),
            Error::UnsupportedProtoGenericCarrierConversion {
                language,
                message,
                field,
            } => language_display_name(*language).to_owned()
                .concat(" has no conversion of the generic field `").concat(field.as_str())
                .concat("` of `").concat(message.as_str()).concat("`"),
            Error::UnsupportedGoProtoConversion { context, reason } => context.as_str().to_owned()
                .concat(" has no Go protobuf conversion: ").concat(reason.as_str()),
            Error::InvalidResource { service, resource, reason } => "invalid resource `".to_owned()
                .concat(resource.as_str()).concat("` of service `").concat(service.as_str())
                .concat("`: ").concat(reason.as_str()),
            Error::InvalidJsonSchema { path, reason } => "invalid JSON schema `".to_owned()
                .concat(path.as_str()).concat("`: ").concat(reason.as_str()),
        }
    }
}

} // verus!
