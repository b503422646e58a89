use cuda_loader::slot::GlobalLibrary;
use cuda_loader::table::SymbolTable;

// A shared library that every test host has, standing in for a vendor module.
const REAL_LIB: &str = "libm.so.6";
const OTHER_REAL_LIB: &str = "libc.so.6";
const MISSING_LIB: &str = "/no/such/dir/libnothing_at_all.so";

fn test_table() -> SymbolTable {
    let names = vec![
        "cuFirst".to_string(),
        "cuSecond".to_string(),
        "cuThird".to_string(),
    ];
    SymbolTable::new("cuda".to_string(), names)
}

#[test]
fn cuda_version() {
    // The driver module's loading protocol, run end to end: open the shared
    // library, populate the version query's symbol, and read the table back.
    // This host has no vendor driver, so its math library stands in for it.
    let mut slot = GlobalLibrary::new();
    let mut table = SymbolTable::new(
        "cuda".to_string(),
        vec!["cuDriverGetVersion".to_string()],
    );
    slot.try_publish_path(REAL_LIB).expect("failed to load cuda driver");
    table.populate_once(&mut slot, vec![Some(4096)]);
    assert!(slot.is_loaded());
    assert!(table.symbol_is_loaded(&slot, 0));
    let d_ver = 0;
    println!("driver version = {}", d_ver);
}

#[test]
fn open_real_library_publishes_but_gate_stays_open() {
    let mut slot = GlobalLibrary::new();
    assert!(!slot.is_loaded());
    assert!(!slot.has_handle());
    assert!(slot.try_publish_path(REAL_LIB).is_ok());
    assert!(slot.has_handle());
    // a handle alone is not "loaded": the population gate is still open
    assert!(!slot.is_loaded());
}

#[test]
fn open_missing_library_is_recoverable() {
    let mut slot = GlobalLibrary::new();
    let r = slot.try_publish_path(MISSING_LIB);
    assert!(r.is_err());
    assert!(!slot.has_handle());
    assert!(!slot.is_loaded());
    // the failure is not cached: a later attempt may succeed
    assert!(slot.try_publish_path(REAL_LIB).is_ok());
    assert!(slot.has_handle());
}

#[test]
fn idempotent_ensure_opens_once_and_populates_once() {
    let mut slot = GlobalLibrary::new();
    let mut table = test_table();
    assert!(slot.try_publish_path(REAL_LIB).is_ok());
    // a second open attempt succeeds without disturbing the slot
    assert!(slot.try_publish_path(REAL_LIB).is_ok());
    let first = table.populate_once(&mut slot, vec![Some(4096), Some(8192), Some(12288)]);
    assert!(first);
    assert!(slot.is_loaded());
    // a second population attempt, even with other addresses, is a no-op
    let second = table.populate_once(&mut slot, vec![None, None, None]);
    assert!(!second);
    assert!(slot.is_loaded());
    assert_eq!(table.addr_for_call(0).ok(), Some(4096));
    assert_eq!(table.addr_for_call(1).ok(), Some(8192));
    assert_eq!(table.addr_for_call(2).ok(), Some(12288));
}

#[test]
fn no_leak_on_race_first_handle_wins() {
    let mut slot = GlobalLibrary::new();
    let a = libloading::Library::new(REAL_LIB).expect("test host lacks the math library");
    let b = libloading::Library::new(OTHER_REAL_LIB).expect("test host lacks the C library");
    // both "threads" opened successfully; exactly the first offer is kept
    assert!(slot.publish(a));
    assert!(!slot.publish(b));
    assert!(slot.has_handle());
    assert!(!slot.is_loaded());
}

#[test]
fn graceful_missing_symbol() {
    let mut slot = GlobalLibrary::new();
    let mut table = test_table();
    assert!(slot.try_publish_path(REAL_LIB).is_ok());
    // the installed library exports the first and third name, not the second
    table.populate_once(&mut slot, vec![Some(4096), None, Some(8192)]);
    assert!(slot.is_loaded());
    assert!(table.symbol_is_loaded(&slot, 0));
    assert!(!table.symbol_is_loaded(&slot, 1));
    assert!(table.symbol_is_loaded(&slot, 2));
}

#[test]
fn fatal_on_missing_call_names_module_and_symbol() {
    let mut slot = GlobalLibrary::new();
    let mut table = test_table();
    assert!(slot.try_publish_path(REAL_LIB).is_ok());
    table.populate_once(&mut slot, vec![Some(4096), None, Some(8192)]);
    let err = table.addr_for_call(1).err().expect("the unresolved symbol must not dispatch");
    assert_eq!(err.module.as_str(), "cuda");
    assert_eq!(err.symbol.as_str(), "cuSecond");
    assert_eq!(
        err.message().as_str(),
        "cuda doesn't export cuSecond, or the library isn't loaded"
    );
}

#[test]
fn symbols_unloaded_before_population() {
    let mut slot = GlobalLibrary::new();
    let table = test_table();
    assert!(slot.try_publish_path(REAL_LIB).is_ok());
    assert!(!table.symbol_is_loaded(&slot, 0));
    assert!(table.addr_for_call(0).is_err());
}

#[test]
fn table_shape_queries() {
    let table = test_table();
    assert!(table.is_well_formed());
    assert_eq!(table.symbol_count(), 3);
    assert_eq!(table.symbol_name(0).as_str(), "cuFirst");
    assert_eq!(table.symbol_name(2).as_str(), "cuThird");
}
