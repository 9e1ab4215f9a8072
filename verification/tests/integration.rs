use llvm_pm::error::{consume_c_error, pipeline_c_string};
use llvm_pm::opt_level::{opt_level_from_c, OptLevel};
use llvm_pm::options::{ExtensionPoint, Options};
use llvm_pm::pass_manager::{status_from_c, FunctionPassManager, ModulePassManager};
use llvm_pm::plugin::{pipeline_element_name, plugin_api_version, PipelineParsing};
use llvm_pm::traits::{pass_outcome_to_c, preserved_to_c, PreservedAnalyses};

const ALL_LEVELS: [OptLevel; 6] = [
    OptLevel::O0,
    OptLevel::O1,
    OptLevel::O2,
    OptLevel::O3,
    OptLevel::Os,
    OptLevel::Oz,
];

#[test]
fn test_plugin_api_version() {
    let version = plugin_api_version();
    assert_eq!(version, 1, "LLVM plugin API version should be 1");
}

#[test]
fn test_plugin_pipeline_parsing_enum() {
    let parsed = PipelineParsing::Parsed;
    let not_parsed = PipelineParsing::NotParsed;
    assert_ne!(parsed, not_parsed);
    assert_eq!(parsed, PipelineParsing::Parsed);
}

#[test]
fn pipeline_parsing_codes() {
    assert_eq!(PipelineParsing::Parsed.to_c(), 1);
    assert_eq!(PipelineParsing::NotParsed.to_c(), 0);
}

#[test]
fn opt_level_codes_round_trip() {
    let codes: Vec<u32> = ALL_LEVELS.iter().map(|l| l.to_c()).collect();
    assert_eq!(codes, vec![0, 1, 2, 3, 4, 5]);
    for level in ALL_LEVELS {
        assert_eq!(opt_level_from_c(level.to_c()), level);
    }
}

#[test]
fn unknown_opt_level_code_reads_as_o2() {
    assert_eq!(opt_level_from_c(6), OptLevel::O2);
    assert_eq!(opt_level_from_c(u32::MAX), OptLevel::O2);
}

#[test]
fn preserved_analyses_codes() {
    assert_eq!(preserved_to_c(PreservedAnalyses::All), 0);
    assert_eq!(preserved_to_c(PreservedAnalyses::Nothing), 1);
    assert_eq!(pass_outcome_to_c(Some(PreservedAnalyses::All)), 0);
    assert_eq!(pass_outcome_to_c(Some(PreservedAnalyses::Nothing)), 1);
    // A pass that panicked preserves nothing.
    assert_eq!(pass_outcome_to_c(None), 1);
}

#[test]
fn pipeline_c_string_appends_terminator() {
    let c = pipeline_c_string("instcombine,dce").unwrap();
    assert_eq!(c, b"instcombine,dce\0".to_vec());
    let empty = pipeline_c_string("").unwrap();
    assert_eq!(empty, vec![0u8]);
}

#[test]
fn pipeline_with_null_byte_is_refused() {
    let err = pipeline_c_string("instcombine\0dce").unwrap_err();
    assert_eq!(
        err.message(),
        "Pipeline string contains null byte: nul byte found in provided data at position: 11"
    );
    let err = pipeline_c_string("inst\0combine").unwrap_err();
    assert!(err.message().ends_with("position: 4"));
    // The position counts bytes, not characters.
    let err = pipeline_c_string("é\0").unwrap_err();
    assert!(err.message().ends_with("position: 2"));
}

#[test]
fn c_errors_become_messages() {
    let err = consume_c_error(Some(b"unknown pass name 'x'"));
    assert_eq!(err.message(), "unknown pass name 'x'");
    let err = consume_c_error(Some(&[b'a', 0xff, b'b']));
    assert_eq!(err.message(), "a\u{fffd}b");
    let err = consume_c_error(None);
    assert!(!err.message().is_empty());
}

#[test]
fn status_of_operations() {
    assert!(status_from_c(None).is_ok());
    let err = status_from_c(Some(b"verification failed")).unwrap_err();
    assert_eq!(err.message(), "verification failed");
}

#[test]
fn created_pass_managers() {
    let pm: ModulePassManager<u32> = ModulePassManager::created(0x1000, None).unwrap();
    assert_eq!(pm.as_raw(), 0x1000);
    assert_eq!(pm.pass_count(), 0);
    let err = ModulePassManager::<u32>::created(0, Some(b"invalid pipeline")).unwrap_err();
    assert_eq!(err.message(), "invalid pipeline");

    let mut fpm: FunctionPassManager<&str> = FunctionPassManager::created(0x2000, None).unwrap();
    fpm.keep_pass("first");
    fpm.keep_pass("second");
    assert_eq!(fpm.pass_count(), 2);
    assert!(FunctionPassManager::<u8>::created(0, None).is_err());
}

#[test]
fn test_module_pm_debug() {
    let pm: ModulePassManager<u8> =
        ModulePassManager::created(1, None).expect("Failed to create empty PM");
    let debug = format!("{:?}", pm);
    assert!(
        debug.contains("ModulePassManager"),
        "Debug should contain type name"
    );
}

#[test]
fn test_function_pm_debug() {
    let fpm: FunctionPassManager<u8> =
        FunctionPassManager::created(1, None).expect("Failed to create empty FPM");
    let debug = format!("{:?}", fpm);
    assert!(
        debug.contains("FunctionPassManager"),
        "Debug should contain type name"
    );
}

#[test]
fn options_builder() {
    let mut opts = Options::new();
    assert!(!opts.debug_logging_enabled());
    assert!(!opts.verify_each_enabled());
    opts.verify_each(true);
    opts.add_peephole_ep("dce")
        .add_scalar_optimizer_late_ep("dce")
        .debug_logging(true);
    assert!(opts.verify_each_enabled());
    assert!(opts.debug_logging_enabled());
    let eps: Vec<(ExtensionPoint, &str)> = opts
        .extension_pipelines()
        .iter()
        .map(|(ep, p)| (*ep, p.as_str()))
        .collect();
    assert_eq!(
        eps,
        vec![
            (ExtensionPoint::Peephole, "dce"),
            (ExtensionPoint::ScalarOptimizerLate, "dce")
        ]
    );
    opts.verify_each(false);
    assert!(!opts.verify_each_enabled());
    assert!(opts.debug_logging_enabled());
}

#[test]
fn options_extension_points_in_order() {
    let mut opts = Options::default();
    opts.add_optimizer_early_ep("function(dce)")
        .add_optimizer_last_ep("function(dce)")
        .add_vectorizer_start_ep("dce")
        .add_pipeline_start_ep("function(dce)")
        .add_pipeline_early_simplification_ep("function(dce)");
    let eps: Vec<ExtensionPoint> = opts.extension_pipelines().iter().map(|p| p.0).collect();
    assert_eq!(
        eps,
        vec![
            ExtensionPoint::OptimizerEarly,
            ExtensionPoint::OptimizerLast,
            ExtensionPoint::VectorizerStart,
            ExtensionPoint::PipelineStart,
            ExtensionPoint::PipelineEarlySimplification
        ]
    );
}

#[test]
fn pass_names_from_llvm() {
    assert_eq!(pipeline_element_name(Some(b"my-pass")), Some("my-pass"));
    assert_eq!(pipeline_element_name(Some(b"")), Some(""));
    assert_eq!(pipeline_element_name(None), None);
    assert_eq!(pipeline_element_name(Some(&[0xc3, 0x28])), None);
}
