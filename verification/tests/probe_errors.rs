use sysprobe::types::{CoreError, CoreErrorKind};

const KINDS: [CoreErrorKind; 7] = [
    CoreErrorKind::CPUInfoError,
    CoreErrorKind::DirectXInfoError,
    CoreErrorKind::MetalInfoError,
    CoreErrorKind::VulkanInfoError,
    CoreErrorKind::OpenGLInfoError,
    CoreErrorKind::USBInfoError,
    CoreErrorKind::Error,
];

#[test]
fn error_keeps_kind_and_detail() {
    for kind in KINDS {
        let e = CoreError::new(kind, "boom".to_string());
        assert_eq!(e.kind(), kind);
        assert_eq!(e.detail().as_str(), "boom");
    }
    assert_eq!(
        CoreError::new(CoreErrorKind::MetalInfoError, "m".to_string()),
        CoreError::MetalInfoError("m".to_string())
    );
}

#[test]
fn error_tags() {
    let tags: Vec<String> = KINDS.iter().map(|k| k.tag_string()).collect();
    assert_eq!(
        tags,
        vec![
            "cPUInfoError",
            "directXInfoError",
            "metalInfoError",
            "vulkanInfoError",
            "openGLInfoError",
            "uSBInfoError",
            "error"
        ]
    );
}

#[test]
fn error_messages() {
    let render = |kind| CoreError::new(kind, "x".to_string()).to_string();
    assert_eq!(
        render(CoreErrorKind::CPUInfoError),
        "An error occurred while retrieving CPU information: x"
    );
    assert_eq!(
        render(CoreErrorKind::DirectXInfoError),
        "An error occurred while retrieving DirectX information: x"
    );
    assert_eq!(
        render(CoreErrorKind::MetalInfoError),
        "An error occurred while retrieving Metal information: x"
    );
    assert_eq!(
        render(CoreErrorKind::VulkanInfoError),
        "An error occurred while retrieving Vulkan information: x"
    );
    assert_eq!(
        render(CoreErrorKind::OpenGLInfoError),
        "An error occurred while retrieving OpenGL information: x"
    );
    assert_eq!(
        render(CoreErrorKind::USBInfoError),
        "An error occurred while retrieving USB information: x"
    );
    assert_eq!(render(CoreErrorKind::Error), "An error occurred: x");
    assert_eq!(CoreErrorKind::Error.preamble_string(), "An error occurred: ");
}

#[test]
fn report_pairs_tag_and_message() {
    let (kind, message) = CoreError::MetalInfoError("no device".to_string()).report();
    assert_eq!(kind, "metalInfoError");
    assert_eq!(message, "An error occurred while retrieving Metal information: no device");
    let empty = CoreError::Error(String::new()).report();
    assert_eq!(empty.1, "An error occurred: ");
}
