//! The settings of the application and the values they start with.

use crate::strings::concat;
use vstd::prelude::*;
use vstd::string::*;

verus! {

/// All settings.
#[derive(Debug, PartialEq, Eq)]
pub struct AppSettings {
    pub project: ProjectSettings,
    pub folder_structure: FolderStructure,
    pub search: SearchSettings,
    pub theme: String,
    pub language: String,
    pub accessibility: AccessibilitySettings,
    pub cultural: CulturalSettings,
}

/// The settings of the project.
#[derive(Debug, PartialEq, Eq)]
pub struct ProjectSettings {
    pub project_folder_path: String,
    pub default_project_name: String,
    pub auto_create_subfolders: bool,
    pub search_index_path: String,
    pub enable_full_text_search: bool,
    pub search_results_limit: u32,
    pub search_history_limit: u32,
    pub enable_cultural_filtering: bool,
    pub default_cultural_sensitivity_level: u32,
    pub show_educational_context: bool,
    pub index_update_interval: u32,
    pub search_timeout: u32,
    pub cache_search_results: bool,
}

/// The folders of a project.
#[derive(Debug, PartialEq, Eq)]
pub struct FolderStructure {
    pub documents_folder: String,
    pub index_folder: String,
    pub metadata_folder: String,
    pub cache_folder: String,
    pub backup_folder: String,
    pub cultural_contexts_folder: String,
    pub educational_resources_folder: String,
    pub community_content_folder: String,
}

/// The settings of the search.
#[derive(Debug, PartialEq, Eq)]
pub struct SearchSettings {
    pub case_sensitive: bool,
    pub include_metadata: bool,
    pub include_tags: bool,
    pub include_content: bool,
    pub respect_cultural_boundaries: bool,
    pub show_cultural_education: bool,
    pub enable_community_validation: bool,
    pub max_search_results: u32,
    pub search_debounce_ms: u32,
    pub enable_search_suggestions: bool,
}

/// The settings of accessibility.
#[derive(Debug, PartialEq, Eq)]
pub struct AccessibilitySettings {
    pub high_contrast: bool,
    pub reduced_motion: bool,
    pub screen_reader_optimized: bool,
}

/// The cultural settings.
#[derive(Debug, PartialEq, Eq)]
pub struct CulturalSettings {
    pub preferred_cultural_contexts: Vec<String>,
    pub educational_level: String,
    pub community_memberships: Vec<String>,
}

/// The folder of the project under a home directory.
pub open spec fn project_folder(home: Seq<char>) -> Seq<char> {
    home + "/AlLibrary"@
}

/// The settings that a fresh installation starts with, for a user whose
/// home directory is `home_dir`: the project lies in `AlLibrary` under it,
/// with one folder for each kind of data.
pub fn get_default_settings(home_dir: &str) -> (r: AppSettings)
    ensures
        r.project.project_folder_path@ == project_folder(home_dir@),
        r.project.default_project_name@ == "AlLibrary"@,
        r.project.auto_create_subfolders,
        r.project.search_index_path@ == project_folder(home_dir@) + "/search_index"@,
        r.project.enable_full_text_search,
        r.project.search_results_limit == 100,
        r.project.search_history_limit == 50,
        r.project.enable_cultural_filtering,
        r.project.default_cultural_sensitivity_level == 1,
        r.project.show_educational_context,
        r.project.index_update_interval == 30,
        r.project.search_timeout == 5000,
        r.project.cache_search_results,
        r.folder_structure.documents_folder@ == project_folder(home_dir@) + "/documents"@,
        r.folder_structure.index_folder@ == project_folder(home_dir@) + "/search_index"@,
        r.folder_structure.metadata_folder@ == project_folder(home_dir@) + "/metadata"@,
        r.folder_structure.cache_folder@ == project_folder(home_dir@) + "/cache"@,
        r.folder_structure.backup_folder@ == project_folder(home_dir@) + "/backups"@,
        r.folder_structure.cultural_contexts_folder@ == project_folder(home_dir@)
            + "/cultural_contexts"@,
        r.folder_structure.educational_resources_folder@ == project_folder(home_dir@)
            + "/educational_resources"@,
        r.folder_structure.community_content_folder@ == project_folder(home_dir@)
            + "/community_content"@,
        !r.search.case_sensitive,
        r.search.include_metadata && r.search.include_tags && r.search.include_content,
        r.search.respect_cultural_boundaries && r.search.show_cultural_education
            && r.search.enable_community_validation,
        r.search.max_search_results == 100,
        r.search.search_debounce_ms == 300,
        r.search.enable_search_suggestions,
        r.theme@ == "auto"@,
        r.language@ == "en"@,
        !r.accessibility.high_contrast && !r.accessibility.reduced_motion
            && !r.accessibility.screen_reader_optimized,
        r.cultural.preferred_cultural_contexts@.len() == 0,
        r.cultural.educational_level@ == "beginner"@,
        r.cultural.community_memberships@.len() == 0,
{
    let project = concat(home_dir, "/AlLibrary");
    let p = project.as_str();
    AppSettings {
        project: ProjectSettings {
            project_folder_path: project.clone(),
            default_project_name: String::from_str("AlLibrary"),
            auto_create_subfolders: true,
            search_index_path: concat(p, "/search_index"),
            enable_full_text_search: true,
            search_results_limit: 100,
            search_history_limit: 50,
            enable_cultural_filtering: true,
            default_cultural_sensitivity_level: 1,
            show_educational_context: true,
            index_update_interval: 30,
            search_timeout: 5000,
            cache_search_results: true,
        },
        folder_structure: FolderStructure {
            documents_folder: concat(p, "/documents"),
            index_folder: concat(p, "/search_index"),
            metadata_folder: concat(p, "/metadata"),
            cache_folder: concat(p, "/cache"),
            backup_folder: concat(p, "/backups"),
            cultural_contexts_folder: concat(p, "/cultural_contexts"),
            educational_resources_folder: concat(p, "/educational_resources"),
            community_content_folder: concat(p, "/community_content"),
        },
        search: SearchSettings {
            case_sensitive: false,
            include_metadata: true,
            include_tags: true,
            include_content: true,
            respect_cultural_boundaries: true,
            show_cultural_education: true,
            enable_community_validation: true,
            max_search_results: 100,
            search_debounce_ms: 300,
            enable_search_suggestions: true,
        },
        theme: String::from_str("auto"),
        language: String::from_str("en"),
        accessibility: AccessibilitySettings {
            high_contrast: false,
            reduced_motion: false,
            screen_reader_optimized: false,
        },
        cultural: CulturalSettings {
            preferred_cultural_contexts: Vec::new(),
            educational_level: String::from_str("beginner"),
            community_memberships: Vec::new(),
        },
    }
}

} // verus!
