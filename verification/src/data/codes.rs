//! The text codes under which enum values are stored, and back.
//!
//! Each `*_to_str` writes the code of a value; each `*_from_str` reads a code
//! back and falls back to the enum's default value for any unknown text.

use vstd::prelude::*;

use crate::domain::enums::{AnalysisType, LayerType, Priority, Source, WorkItemStatus};
use crate::text::str_eq;

verus! {

broadcast use vstd::string::group_string_axioms;

/// The stored code of a status.
pub open spec fn status_code(s: WorkItemStatus) -> Seq<char> {
    match s {
        WorkItemStatus::New => "new"@,
        WorkItemStatus::InProgress => "inProgress"@,
        WorkItemStatus::Reviewing => "reviewing"@,
        WorkItemStatus::Done => "done"@,
        WorkItemStatus::Archived => "archived"@,
    }
}

/// The status a stored code stands for; unknown codes read as `New`.
pub open spec fn status_of_code(t: Seq<char>) -> WorkItemStatus {
    if t == "inProgress"@ {
        WorkItemStatus::InProgress
    } else if t == "reviewing"@ {
        WorkItemStatus::Reviewing
    } else if t == "done"@ {
        WorkItemStatus::Done
    } else if t == "archived"@ {
        WorkItemStatus::Archived
    } else {
        WorkItemStatus::New
    }
}

/// The stored code of a priority.
pub open spec fn priority_code(p: Priority) -> Seq<char> {
    match p {
        Priority::Low => "low"@,
        Priority::Normal => "normal"@,
        Priority::High => "high"@,
        Priority::Urgent => "urgent"@,
    }
}

/// The priority a stored code stands for; unknown codes read as `Normal`.
pub open spec fn priority_of_code(t: Seq<char>) -> Priority {
    if t == "low"@ {
        Priority::Low
    } else if t == "high"@ {
        Priority::High
    } else if t == "urgent"@ {
        Priority::Urgent
    } else {
        Priority::Normal
    }
}

/// The stored code of a source.
pub open spec fn source_code(s: Source) -> Seq<char> {
    match s {
        Source::Manual => "manual"@,
        Source::Email => "email"@,
        Source::File => "file"@,
        Source::Api => "api"@,
    }
}

/// The source a stored code stands for; unknown codes read as `Manual`.
pub open spec fn source_of_code(t: Seq<char>) -> Source {
    if t == "email"@ {
        Source::Email
    } else if t == "file"@ {
        Source::File
    } else if t == "api"@ {
        Source::Api
    } else {
        Source::Manual
    }
}

/// The stored code of a layer type.
pub open spec fn layer_type_code(lt: LayerType) -> Seq<char> {
    match lt {
        LayerType::Vector => "vector"@,
        LayerType::Raster => "raster"@,
        LayerType::Tile => "tile"@,
    }
}

/// The layer type a stored code stands for; unknown codes read as `Vector`.
pub open spec fn layer_type_of_code(t: Seq<char>) -> LayerType {
    if t == "raster"@ {
        LayerType::Raster
    } else if t == "tile"@ {
        LayerType::Tile
    } else {
        LayerType::Vector
    }
}

/// The stored code of an analysis type.
pub open spec fn analysis_type_code(a: AnalysisType) -> Seq<char> {
    match a {
        AnalysisType::Summary => "summary"@,
        AnalysisType::ActionExtraction => "actionExtraction"@,
        AnalysisType::Classification => "classification"@,
        AnalysisType::PrioritySuggestion => "prioritySuggestion"@,
    }
}

/// The analysis type a stored code stands for; unknown codes read as `Summary`.
pub open spec fn analysis_type_of_code(t: Seq<char>) -> AnalysisType {
    if t == "actionExtraction"@ {
        AnalysisType::ActionExtraction
    } else if t == "classification"@ {
        AnalysisType::Classification
    } else if t == "prioritySuggestion"@ {
        AnalysisType::PrioritySuggestion
    } else {
        AnalysisType::Summary
    }
}

/// Writes the stored code of a status.
pub fn status_to_str(s: WorkItemStatus) -> (r: &'static str)
    ensures
        r@ == status_code(s),
{
    match s {
        WorkItemStatus::New => "new",
        WorkItemStatus::InProgress => "inProgress",
        WorkItemStatus::Reviewing => "reviewing",
        WorkItemStatus::Done => "done",
        WorkItemStatus::Archived => "archived",
    }
}

/// Reads a stored status code.
pub fn status_from_str(s: &str) -> (r: WorkItemStatus)
    ensures
        r == status_of_code(s@),
{
    if str_eq(s, "inProgress") {
        WorkItemStatus::InProgress
    } else if str_eq(s, "reviewing") {
        WorkItemStatus::Reviewing
    } else if str_eq(s, "done") {
        WorkItemStatus::Done
    } else if str_eq(s, "archived") {
        WorkItemStatus::Archived
    } else {
        WorkItemStatus::New
    }
}

/// Writes the stored code of a priority.
pub fn priority_to_str(p: Priority) -> (r: &'static str)
    ensures
        r@ == priority_code(p),
{
    match p {
        Priority::Low => "low",
        Priority::Normal => "normal",
        Priority::High => "high",
        Priority::Urgent => "urgent",
    }
}

/// Reads a stored priority code.
pub fn priority_from_str(s: &str) -> (r: Priority)
    ensures
        r == priority_of_code(s@),
{
    if str_eq(s, "low") {
        Priority::Low
    } else if str_eq(s, "high") {
        Priority::High
    } else if str_eq(s, "urgent") {
        Priority::Urgent
    } else {
        Priority::Normal
    }
}

/// Writes the stored code of a source.
pub fn source_to_str(s: Source) -> (r: &'static str)
    ensures
        r@ == source_code(s),
{
    match s {
        Source::Manual => "manual",
        Source::Email => "email",
        Source::File => "file",
        Source::Api => "api",
    }
}

/// Reads a stored source code.
pub fn source_from_str(s: &str) -> (r: Source)
    ensures
        r == source_of_code(s@),
{
    if str_eq(s, "email") {
        Source::Email
    } else if str_eq(s, "file") {
        Source::File
    } else if str_eq(s, "api") {
        Source::Api
    } else {
        Source::Manual
    }
}

/// Writes the stored code of a layer type.
pub fn layer_type_to_str(lt: LayerType) -> (r: &'static str)
    ensures
        r@ == layer_type_code(lt),
{
    match lt {
        LayerType::Vector => "vector",
        LayerType::Raster => "raster",
        LayerType::Tile => "tile",
    }
}

/// Reads a stored layer type code.
pub fn layer_type_from_str(s: &str) -> (r: LayerType)
    ensures
        r == layer_type_of_code(s@),
{
    if str_eq(s, "raster") {
        LayerType::Raster
    } else if str_eq(s, "tile") {
        LayerType::Tile
    } else {
        LayerType::Vector
    }
}

/// Writes the stored code of an analysis type.
pub fn analysis_type_to_str(a: AnalysisType) -> (r: &'static str)
    ensures
        r@ == analysis_type_code(a),
{
    match a {
        AnalysisType::Summary => "summary",
        AnalysisType::ActionExtraction => "actionExtraction",
        AnalysisType::Classification => "classification",
        AnalysisType::PrioritySuggestion => "prioritySuggestion",
    }
}

/// Reads a stored analysis type code.
pub fn analysis_type_from_str(s: &str) -> (r: AnalysisType)
    ensures
        r == analysis_type_of_code(s@),
{
    if str_eq(s, "actionExtraction") {
        AnalysisType::ActionExtraction
    } else if str_eq(s, "classification") {
        AnalysisType::Classification
    } else if str_eq(s, "prioritySuggestion") {
        AnalysisType::PrioritySuggestion
    } else {
        AnalysisType::Summary
    }
}

/// A status read back from its own code is the status that was written.
pub proof fn lemma_status_code_roundtrip(s: WorkItemStatus)
    ensures
        status_of_code(status_code(s)) == s,
{
    reveal_strlit("new");
    reveal_strlit("inProgress");
    reveal_strlit("reviewing");
    reveal_strlit("done");
    reveal_strlit("archived");
    assert("new"@.len() == 3);
    assert("inProgress"@.len() == 10);
    assert("reviewing"@.len() == 9);
    assert("done"@.len() == 4);
    assert("archived"@.len() == 8);
    match s {
        WorkItemStatus::New => {
            assert("new"@ != "inProgress"@);
            assert("new"@ != "reviewing"@);
            assert("new"@ != "done"@);
            assert("new"@ != "archived"@);
        },
        WorkItemStatus::Reviewing => assert("reviewing"@ != "inProgress"@),
        WorkItemStatus::Done => {
            assert("done"@ != "inProgress"@);
            assert("done"@ != "reviewing"@);
        },
        WorkItemStatus::Archived => {
            assert("archived"@ != "inProgress"@);
            assert("archived"@ != "reviewing"@);
            assert("archived"@ != "done"@);
        },
        _ => {},
    }
}

/// A priority read back from its own code is the priority that was written.
pub proof fn lemma_priority_code_roundtrip(p: Priority)
    ensures
        priority_of_code(priority_code(p)) == p,
{
    reveal_strlit("low");
    reveal_strlit("normal");
    reveal_strlit("high");
    reveal_strlit("urgent");
    assert("low"@.len() == 3);
    assert("normal"@.len() == 6);
    assert("high"@.len() == 4);
    assert("urgent"@.len() == 6);
    assert("normal"@[0] != "urgent"@[0]);
}

/// A source read back from its own code is the source that was written.
pub proof fn lemma_source_code_roundtrip(s: Source)
    ensures
        source_of_code(source_code(s)) == s,
{
    reveal_strlit("manual");
    reveal_strlit("email");
    reveal_strlit("file");
    reveal_strlit("api");
    assert("manual"@.len() == 6);
    assert("email"@.len() == 5);
    assert("file"@.len() == 4);
    assert("api"@.len() == 3);
}

/// A layer type read back from its own code is the layer type that was written.
pub proof fn lemma_layer_type_code_roundtrip(lt: LayerType)
    ensures
        layer_type_of_code(layer_type_code(lt)) == lt,
{
    reveal_strlit("vector");
    reveal_strlit("raster");
    reveal_strlit("tile");
    assert("vector"@.len() == 6);
    assert("raster"@.len() == 6);
    assert("tile"@.len() == 4);
    assert("vector"@[0] != "raster"@[0]);
}

/// An analysis type read back from its own code is the analysis type that was written.
pub proof fn lemma_analysis_type_code_roundtrip(a: AnalysisType)
    ensures
        analysis_type_of_code(analysis_type_code(a)) == a,
{
    reveal_strlit("summary");
    reveal_strlit("actionExtraction");
    reveal_strlit("classification");
    reveal_strlit("prioritySuggestion");
    assert("summary"@.len() == 7);
    assert("actionExtraction"@.len() == 16);
    assert("classification"@.len() == 14);
    assert("prioritySuggestion"@.len() == 18);
}

/// Each status is stored under its own name, with the first letter in lower
/// case, and each of those names reads back as that status.
pub proof fn lemma_status_codes()
    ensures
        status_code(WorkItemStatus::New) == "new"@,
        status_code(WorkItemStatus::InProgress) == "inProgress"@,
        status_code(WorkItemStatus::Reviewing) == "reviewing"@,
        status_code(WorkItemStatus::Done) == "done"@,
        status_code(WorkItemStatus::Archived) == "archived"@,
        status_of_code("new"@) == WorkItemStatus::New,
        status_of_code("inProgress"@) == WorkItemStatus::InProgress,
        status_of_code("reviewing"@) == WorkItemStatus::Reviewing,
        status_of_code("done"@) == WorkItemStatus::Done,
        status_of_code("archived"@) == WorkItemStatus::Archived,
{
    lemma_status_code_roundtrip(WorkItemStatus::New);
    lemma_status_code_roundtrip(WorkItemStatus::InProgress);
    lemma_status_code_roundtrip(WorkItemStatus::Reviewing);
    lemma_status_code_roundtrip(WorkItemStatus::Done);
    lemma_status_code_roundtrip(WorkItemStatus::Archived);
}

/// Each priority is stored under its own name in lower case, and each of
/// those names reads back as that priority.
pub proof fn lemma_priority_codes()
    ensures
        priority_code(Priority::Low) == "low"@,
        priority_code(Priority::Normal) == "normal"@,
        priority_code(Priority::High) == "high"@,
        priority_code(Priority::Urgent) == "urgent"@,
        priority_of_code("low"@) == Priority::Low,
        priority_of_code("normal"@) == Priority::Normal,
        priority_of_code("high"@) == Priority::High,
        priority_of_code("urgent"@) == Priority::Urgent,
{
    lemma_priority_code_roundtrip(Priority::Low);
    lemma_priority_code_roundtrip(Priority::Normal);
    lemma_priority_code_roundtrip(Priority::High);
    lemma_priority_code_roundtrip(Priority::Urgent);
}

/// Each source is stored under its own name in lower case, and each of those
/// names reads back as that source.
pub proof fn lemma_source_codes()
    ensures
        source_code(Source::Manual) == "manual"@,
        source_code(Source::Email) == "email"@,
        source_code(Source::File) == "file"@,
        source_code(Source::Api) == "api"@,
        source_of_code("manual"@) == Source::Manual,
        source_of_code("email"@) == Source::Email,
        source_of_code("file"@) == Source::File,
        source_of_code("api"@) == Source::Api,
{
    lemma_source_code_roundtrip(Source::Manual);
    lemma_source_code_roundtrip(Source::Email);
    lemma_source_code_roundtrip(Source::File);
    lemma_source_code_roundtrip(Source::Api);
}

/// Each layer type is stored under its own name in lower case, and each of
/// those names reads back as that layer type.
pub proof fn lemma_layer_type_codes()
    ensures
        layer_type_code(LayerType::Vector) == "vector"@,
        layer_type_code(LayerType::Raster) == "raster"@,
        layer_type_code(LayerType::Tile) == "tile"@,
        layer_type_of_code("vector"@) == LayerType::Vector,
        layer_type_of_code("raster"@) == LayerType::Raster,
        layer_type_of_code("tile"@) == LayerType::Tile,
{
    lemma_layer_type_code_roundtrip(LayerType::Vector);
    lemma_layer_type_code_roundtrip(LayerType::Raster);
    lemma_layer_type_code_roundtrip(LayerType::Tile);
}

/// Each analysis type is stored under its own name, with the first letter in
/// lower case, and each of those names reads back as that analysis type.
pub proof fn lemma_analysis_type_codes()
    ensures
        analysis_type_code(AnalysisType::Summary) == "summary"@,
        analysis_type_code(AnalysisType::ActionExtraction) == "actionExtraction"@,
        analysis_type_code(AnalysisType::Classification) == "classification"@,
        analysis_type_code(AnalysisType::PrioritySuggestion) == "prioritySuggestion"@,
        analysis_type_of_code("summary"@) == AnalysisType::Summary,
        analysis_type_of_code("actionExtraction"@) == AnalysisType::ActionExtraction,
        analysis_type_of_code("classification"@) == AnalysisType::Classification,
        analysis_type_of_code("prioritySuggestion"@) == AnalysisType::PrioritySuggestion,
{
    lemma_analysis_type_code_roundtrip(AnalysisType::Summary);
    lemma_analysis_type_code_roundtrip(AnalysisType::ActionExtraction);
    lemma_analysis_type_code_roundtrip(AnalysisType::Classification);
    lemma_analysis_type_code_roundtrip(AnalysisType::PrioritySuggestion);
}

} // verus!
