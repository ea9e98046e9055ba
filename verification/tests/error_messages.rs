use pylon_shimload::error::{PylonError, ShimError};
use pylon_shimload::message::decimal_text;

#[test]
fn decimal_notation() {
    assert_eq!(decimal_text(0), "0");
    assert_eq!(decimal_text(7), "7");
    assert_eq!(decimal_text(10), "10");
    assert_eq!(decimal_text(809), "809");
    assert_eq!(decimal_text(u32::MAX), "4294967295");
}

#[test]
fn shim_error_text_matches_debug() {
    let errors = vec![
        ShimError::SymbolLoadFailed {
            path: "lib/x.so".to_string(),
            symbol: "pylon_shim_get_api".to_string(),
            err_str: "DlSym { source: \"undefined\\n\" }".to_string(),
        },
        ShimError::NullApi { path: "/usr/lib/libpylon-cabi.so".to_string() },
        ShimError::ApiTableTooSmall { path: "a".to_string(), got: 12, need: 808 },
        ShimError::IncompatibleAbiVersion { path: "b".to_string(), got: 0, need: 1 },
    ];
    for e in errors {
        assert_eq!(e.debug_text(), format!("{:?}", e));
    }
}

#[test]
fn paths_render_as_paths() {
    let path = "it's \"here\".so";
    let e = ShimError::NullApi { path: path.to_string() };
    let expected = format!("NullApi {{ path: {:?} }}", std::path::Path::new(path));
    assert_eq!(e.debug_text(), expected);
}

#[test]
fn simple_messages() {
    assert_eq!(PylonError::Msg("x".to_string()).message(), "PylonError(x)");
    assert_eq!(
        PylonError::ShimCallFailed {
            op: "instant_camera_open",
            callsite: "src/lib.rs:42".to_string(),
            err_str: "busy".to_string(),
        }
        .message(),
        "PylonError(ShimCallFailed instant_camera_open at src/lib.rs:42: busy)"
    );
    assert_eq!(
        PylonError::InvalidShimOutput {
            op: "node_map_save_to_string",
            detail: "serialized node map string was null".to_string(),
        }
        .message(),
        "PylonError(InvalidShimOutput node_map_save_to_string: serialized node map string was null)"
    );
}

#[test]
fn shim_error_message() {
    let e = PylonError::ShimError(ShimError::NullApi { path: "p.so".to_string() });
    assert_eq!(e.message(), "PylonError(ShimError: NullApi { path: \"p.so\" })");
}

#[test]
fn dlopen_message() {
    let e = PylonError::DlOpenFailed {
        path: "libpylon-cabi.so".to_string(),
        source: "libpylon-cabi.so: cannot open shared object file".to_string(),
    };
    let expected = "There was a problem opening the `pylon-cabi` shim library. The path was specified \
                as \"libpylon-cabi.so\". You can force a specific path \
                to the shim library using the `PYLON_CABI` environment variable. Shim libraries can \
                be downloaded from https://strawlab.org/assets/libpylon-cabi/precompiled/ or built \
                from source. You need v1 of the shim library for this version of `pylon-shimload`.\
                \n\nThe source of the error was:\n\n\
                libpylon-cabi.so: cannot open shared object file";
    assert_eq!(e.message(), expected);
}
