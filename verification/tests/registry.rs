use llvm_pm::analysis::{CgsccAnalysisManager, LoopAnalysisManager, ModuleAnalysisManager};
use llvm_pm::registry::{AnalysisRegistry, ResultPlan};
use std::any::TypeId;

struct RegisteredAnalysis;
struct UnregisteredImpostor;
struct DependencyAnalysis;

fn id<T: 'static>() -> TypeId {
    TypeId::of::<T>()
}

#[test]
fn registered_analysis_is_computed_then_cached() {
    let mut reg: AnalysisRegistry<&str, u32> = AnalysisRegistry::new();
    let m = CgsccAnalysisManager::from_raw(0x10);
    assert!(!reg.is_registered(m.as_raw(), &id::<RegisteredAnalysis>()));
    reg.register(m.as_raw(), id::<RegisteredAnalysis>(), "pass");
    assert!(reg.is_registered(m.as_raw(), &id::<RegisteredAnalysis>()));
    assert_eq!(reg.registered(0x10, &id::<RegisteredAnalysis>()), Some(&"pass"));

    let f = 0xF00;
    assert_eq!(m.plan_request(&reg, &id::<RegisteredAnalysis>(), f), ResultPlan::Compute);
    assert_eq!(reg.cached(0x10, &id::<RegisteredAnalysis>(), f), None);
    reg.store_result(0x10, id::<RegisteredAnalysis>(), f, 0xCAFE_B0BA);
    assert_eq!(m.plan_request(&reg, &id::<RegisteredAnalysis>(), f), ResultPlan::Cached);
    assert_eq!(reg.cached(0x10, &id::<RegisteredAnalysis>(), f), Some(&0xCAFE_B0BA));
    // Another unit is not cached yet.
    assert_eq!(m.plan_request(&reg, &id::<RegisteredAnalysis>(), f + 1), ResultPlan::Compute);
    // Storing again replaces the result.
    reg.store_result(0x10, id::<RegisteredAnalysis>(), f, 7);
    assert_eq!(reg.cached(0x10, &id::<RegisteredAnalysis>(), f), Some(&7));
}

#[test]
fn unregistered_analysis_is_not_confused_with_a_registered_one() {
    let mut reg: AnalysisRegistry<(), u32> = AnalysisRegistry::new();
    let m = CgsccAnalysisManager::from_raw(0x20);
    reg.register(0x20, id::<RegisteredAnalysis>(), ());
    reg.store_result(0x20, id::<RegisteredAnalysis>(), 1, 0xCAFE_B0BA);
    assert_eq!(
        m.plan_request(&reg, &id::<UnregisteredImpostor>(), 1),
        ResultPlan::NotRegistered
    );
    assert_eq!(reg.cached(0x20, &id::<UnregisteredImpostor>(), 1), None);
}

#[test]
fn analysis_cannot_request_its_own_result() {
    let mut reg: AnalysisRegistry<(), u32> = AnalysisRegistry::new();
    reg.register(0x30, id::<RegisteredAnalysis>(), ());
    reg.store_result(0x30, id::<RegisteredAnalysis>(), 5, 1);
    let inside = CgsccAnalysisManager::from_raw_with_analysis_id(0x30, Some(id::<RegisteredAnalysis>()));
    assert_eq!(
        inside.plan_request(&reg, &id::<RegisteredAnalysis>(), 5),
        ResultPlan::SelfRequest
    );
    // A dependent request for another analysis goes through.
    reg.register(0x30, id::<DependencyAnalysis>(), ());
    assert_eq!(
        inside.plan_request(&reg, &id::<DependencyAnalysis>(), 5),
        ResultPlan::Compute
    );
}

#[test]
fn clearing_a_manager_forgets_only_its_entries() {
    let mut reg: AnalysisRegistry<u8, u8> = AnalysisRegistry::new();
    reg.register(1, id::<RegisteredAnalysis>(), 1);
    reg.register(1, id::<DependencyAnalysis>(), 2);
    reg.register(2, id::<RegisteredAnalysis>(), 3);
    reg.store_result(1, id::<RegisteredAnalysis>(), 9, 10);
    reg.store_result(2, id::<RegisteredAnalysis>(), 9, 20);
    reg.clear_manager(1);
    let l1 = LoopAnalysisManager::from_raw(1);
    let l2 = LoopAnalysisManager::from_raw(2);
    assert_eq!(l1.plan_request(&reg, &id::<RegisteredAnalysis>(), 9), ResultPlan::NotRegistered);
    assert_eq!(l1.plan_request(&reg, &id::<DependencyAnalysis>(), 9), ResultPlan::NotRegistered);
    assert_eq!(l2.plan_request(&reg, &id::<RegisteredAnalysis>(), 9), ResultPlan::Cached);
    assert_eq!(reg.cached(2, &id::<RegisteredAnalysis>(), 9), Some(&20));
    assert_eq!(reg.registered(2, &id::<RegisteredAnalysis>()), Some(&3));
    // After clearing, the analysis can be registered again.
    assert!(!reg.is_registered(1, &id::<RegisteredAnalysis>()));
    reg.register(1, id::<RegisteredAnalysis>(), 4);
    assert_eq!(reg.registered(1, &id::<RegisteredAnalysis>()), Some(&4));
}

#[test]
fn manager_handles_keep_their_addresses() {
    let m = ModuleAnalysisManager::from_raw(0x40, Some(0x99));
    assert_eq!(m.as_raw(), 0x40);
    assert_eq!(m.from_analysis_id(), Some(0x99));
    let f = llvm_pm::analysis::FunctionAnalysisManager::from_raw(0x50, None);
    assert_eq!(f.as_raw(), 0x50);
    assert_eq!(f.from_analysis_id(), None);
    let l = LoopAnalysisManager::from_raw_with_analysis_id(0x60, None);
    assert_eq!(l.as_raw(), 0x60);
}
