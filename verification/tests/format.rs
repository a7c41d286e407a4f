use genlink::OutputFormat;

#[test]
fn default_is_dynamic_non_pic_executable() {
    assert_eq!(OutputFormat::default(), OutputFormat::DynamicExe);
}

#[test]
fn stat_projects_every_variant() {
    assert_eq!(OutputFormat::DynamicExe.stat(true), OutputFormat::StaticExe);
    assert_eq!(OutputFormat::DynamicPicExe.stat(true), OutputFormat::StaticPicExe);
    assert_eq!(OutputFormat::DynamicDyLib.stat(true), OutputFormat::StaticDyLib);
    assert_eq!(OutputFormat::StaticExe.stat(true), OutputFormat::StaticExe);
    assert_eq!(OutputFormat::StaticPicExe.stat(true), OutputFormat::StaticPicExe);
    assert_eq!(OutputFormat::StaticDyLib.stat(true), OutputFormat::StaticDyLib);
    assert_eq!(OutputFormat::StaticExe.stat(false), OutputFormat::DynamicExe);
    assert_eq!(OutputFormat::StaticPicExe.stat(false), OutputFormat::DynamicPicExe);
    assert_eq!(OutputFormat::StaticDyLib.stat(false), OutputFormat::DynamicDyLib);
    assert_eq!(OutputFormat::DynamicExe.stat(false), OutputFormat::DynamicExe);
}

#[test]
fn pic_projects_executables_only() {
    assert_eq!(OutputFormat::DynamicExe.pic(true), OutputFormat::DynamicPicExe);
    assert_eq!(OutputFormat::StaticExe.pic(true), OutputFormat::StaticPicExe);
    assert_eq!(OutputFormat::DynamicPicExe.pic(false), OutputFormat::DynamicExe);
    assert_eq!(OutputFormat::StaticPicExe.pic(false), OutputFormat::StaticExe);
    // Libraries carry no PIC axis: both directions are the identity.
    assert_eq!(OutputFormat::DynamicDyLib.pic(true), OutputFormat::DynamicDyLib);
    assert_eq!(OutputFormat::DynamicDyLib.pic(false), OutputFormat::DynamicDyLib);
    assert_eq!(OutputFormat::StaticDyLib.pic(true), OutputFormat::StaticDyLib);
    assert_eq!(OutputFormat::StaticDyLib.pic(false), OutputFormat::StaticDyLib);
}

#[test]
fn stat_is_idempotent() {
    let all = [
        OutputFormat::DynamicExe,
        OutputFormat::DynamicPicExe,
        OutputFormat::StaticExe,
        OutputFormat::StaticPicExe,
        OutputFormat::DynamicDyLib,
        OutputFormat::StaticDyLib,
    ];
    for f in all {
        for b in [true, false] {
            assert_eq!(f.stat(b).stat(b), f.stat(b));
        }
    }
}

#[test]
fn pic_is_idempotent() {
    let all = [
        OutputFormat::DynamicExe,
        OutputFormat::DynamicPicExe,
        OutputFormat::StaticExe,
        OutputFormat::StaticPicExe,
        OutputFormat::DynamicDyLib,
        OutputFormat::StaticDyLib,
    ];
    for f in all {
        for b in [true, false] {
            assert_eq!(f.pic(b).pic(b), f.pic(b));
        }
    }
}

#[test]
fn lib_is_lossy_on_purpose() {
    // Toward the library the PIC bit is discarded ...
    assert_eq!(OutputFormat::DynamicPicExe.lib(true), OutputFormat::DynamicDyLib);
    assert_eq!(OutputFormat::StaticPicExe.lib(true), OutputFormat::StaticDyLib);
    // ... and coming back it cannot be recovered.
    assert_eq!(OutputFormat::DynamicDyLib.lib(false), OutputFormat::DynamicExe);
    assert_eq!(OutputFormat::StaticDyLib.lib(false), OutputFormat::StaticExe);
}

#[test]
fn transition_chain_loses_pic() {
    let f = OutputFormat::DynamicExe;
    let f = f.stat(true);
    assert_eq!(f, OutputFormat::StaticExe);
    let f = f.pic(true);
    assert_eq!(f, OutputFormat::StaticPicExe);
    let f = f.lib(true);
    assert_eq!(f, OutputFormat::StaticDyLib);
    let f = f.lib(false);
    assert_eq!(f, OutputFormat::StaticExe);
}
