use bluemap_render::config::MasterConfig;
use bluemap_render::map::Dimension;
use bluemap_render::map::MapError;
use bluemap_render::paths::split_final;
use bluemap_render::pipeline::Event;
use bluemap_render::pipeline::Pipeline;
use bluemap_render::pipeline::Stage;

fn new_run() -> Pipeline {
    Pipeline::new(
        &MasterConfig::default(),
        "uploads/world.zip".to_string(),
        "artifacts/w1".to_string(),
        "templates/map.conf".to_string(),
        Dimension::Overworld,
    )
}

fn nothing_staged(p: &Pipeline) -> bool {
    !p.zip_staged && !p.dir_staged && !p.conf_staged && !p.rendered_present
}

#[test]
fn new_run_composes_staged_paths() {
    let p = new_run();
    assert!(matches!(p.stage, Stage::ProbeDest));
    assert!(nothing_staged(&p));
    assert!(!p.published);
    assert_eq!(p.name, "w1");
    assert_eq!(p.dir_path, format!("maps/{}", p.id));
    assert_eq!(p.zip_path, format!("maps/{}.zip", p.id));
    assert_eq!(p.conf_path, format!("config/maps/{}.conf", p.id));
    assert_eq!(p.rendered_path, format!("web/maps/{}", p.id));
    assert_eq!(p.aside_path("wrapper"), "maps/wrapper_temp");
}

#[test]
fn existing_destination_fails_fast_without_mutation() {
    let p = new_run();
    assert!(!p.is_finished());
    let p = p.step(Event::Probed { exists: true });
    assert!(p.is_finished());
    match &p.stage {
        Stage::Finished { result } => {
            assert!(matches!(result, Err(MapError::DestinationExist)))
        },
        _ => panic!("expected a finished run"),
    }
    assert!(nothing_staged(&p));
    assert!(!p.published);
}

#[test]
fn successful_run_publishes_and_cleans_up() {
    let mut p = new_run();
    p = p.step(Event::Probed { exists: false });
    assert!(matches!(p.stage, Stage::CopySource));
    p = p.step(Event::Completed);
    assert!(p.zip_staged);
    p = p.step(Event::Exited { success: true });
    p = p.step(Event::Completed);
    assert!(!p.zip_staged);
    assert!(matches!(p.stage, Stage::ListChildren));
    p = p.step(Event::Listed { children: vec!["region".to_string(), "data".to_string()] });
    assert!(matches!(p.stage, Stage::ReadTemplate));
    p = p.step(Event::TemplateText { text: Some("w=%world% d=%dimension% n=%name%".to_string()) });
    match &p.stage {
        Stage::WriteConfig { content } => {
            assert_eq!(*content, format!("w=maps/{} d=overworld n=w1", p.id));
        },
        _ => panic!("expected the config write stage"),
    }
    p = p.step(Event::Completed);
    assert!(p.conf_staged);
    p = p.step(Event::Exited { success: true });
    assert!(p.rendered_present);
    p = p.step(Event::Completed);
    assert!(matches!(p.stage, Stage::Publish));
    assert!(!p.dir_staged);
    assert!(!p.conf_staged);
    p = p.step(Event::Completed);
    match &p.stage {
        Stage::Finished { result } => assert!(result.is_ok()),
        _ => panic!("expected a finished run"),
    }
    assert!(p.published);
    assert!(nothing_staged(&p));
}

#[test]
fn failed_unzip_leaves_nothing_staged() {
    let mut p = new_run();
    p = p.step(Event::Probed { exists: false });
    p = p.step(Event::Completed);
    p = p.step(Event::Exited { success: false });
    p = p.step(Event::Completed);
    assert!(matches!(p.stage, Stage::CleanupFailure { .. }));
    p = p.step(Event::Completed);
    match &p.stage {
        Stage::Finished { result } => assert!(matches!(result, Err(MapError::UnzipFailed))),
        _ => panic!("expected a finished run"),
    }
    assert!(nothing_staged(&p));
    assert!(!p.published);
}

#[test]
fn missing_template_fails_and_cleans_up() {
    let mut p = new_run();
    p = p.step(Event::Probed { exists: false });
    p = p.step(Event::Completed);
    p = p.step(Event::Exited { success: true });
    p = p.step(Event::Completed);
    p = p.step(Event::Listed { children: vec![] });
    p = p.step(Event::TemplateText { text: None });
    p = p.step(Event::Completed);
    match &p.stage {
        Stage::Finished { result } => {
            assert!(matches!(result, Err(MapError::ConfigTemplateNotFound)))
        },
        _ => panic!("expected a finished run"),
    }
    assert!(nothing_staged(&p));
}

#[test]
fn failed_renderer_fails_and_cleans_up() {
    let mut p = new_run();
    p = p.step(Event::Probed { exists: false });
    p = p.step(Event::Completed);
    p = p.step(Event::Exited { success: true });
    p = p.step(Event::Completed);
    p = p.step(Event::Listed { children: vec![] });
    p = p.step(Event::TemplateText { text: Some("x".to_string()) });
    p = p.step(Event::Completed);
    p = p.step(Event::Exited { success: false });
    p = p.step(Event::Completed);
    assert!(matches!(p.stage, Stage::CleanupFailure { .. }));
    p = p.step(Event::Completed);
    match &p.stage {
        Stage::Finished { result } => assert!(matches!(result, Err(MapError::RenderingFiled))),
        _ => panic!("expected a finished run"),
    }
    assert!(nothing_staged(&p));
    assert!(!p.published);
}

#[test]
fn copy_fault_surfaces_external_reason() {
    let mut p = new_run();
    p = p.step(Event::Probed { exists: false });
    p = p.step(Event::Faulted { reason: "disk full".to_string() });
    assert!(matches!(p.stage, Stage::CleanupFailure { .. }));
    p = p.step(Event::Completed);
    match &p.stage {
        Stage::Finished { result } => match result {
            Err(MapError::External { reason }) => assert_eq!(reason, "disk full"),
            _ => panic!("expected an external error"),
        },
        _ => panic!("expected a finished run"),
    }
    assert!(nothing_staged(&p));
}

#[test]
fn single_child_triggers_flattening_dance() {
    let mut p = new_run();
    p = p.step(Event::Probed { exists: false });
    p = p.step(Event::Completed);
    p = p.step(Event::Exited { success: true });
    p = p.step(Event::Completed);
    p = p.step(Event::Listed { children: vec!["wrapper".to_string()] });
    match &p.stage {
        Stage::NormalizeAside { child } => assert_eq!(child, "wrapper"),
        _ => panic!("expected the flattening to start"),
    }
    p = p.step(Event::Completed);
    assert!(matches!(p.stage, Stage::NormalizeSwap { .. }));
    p = p.step(Event::Completed);
    assert!(matches!(p.stage, Stage::NormalizeBack { .. }));
    p = p.step(Event::Completed);
    assert!(matches!(p.stage, Stage::ReadTemplate));
}

#[test]
fn multiple_children_leave_layout_unchanged() {
    let mut p = new_run();
    p = p.step(Event::Probed { exists: false });
    p = p.step(Event::Completed);
    p = p.step(Event::Exited { success: true });
    p = p.step(Event::Completed);
    p = p.step(Event::Listed { children: vec!["a".to_string(), "b".to_string()] });
    assert!(matches!(p.stage, Stage::ReadTemplate));
}

#[test]
fn second_sequential_run_hits_existing_destination() {
    // First run succeeds: the destination is published.
    let mut first = new_run();
    for ev in [
        Event::Probed { exists: false },
        Event::Completed,
        Event::Exited { success: true },
        Event::Completed,
        Event::Listed { children: vec![] },
        Event::TemplateText { text: Some("t".to_string()) },
        Event::Completed,
        Event::Exited { success: true },
        Event::Completed,
        Event::Completed,
    ] {
        first = first.step(ev);
    }
    assert!(first.published);
    // The second run's probe therefore reports the destination present.
    let second = new_run().step(Event::Probed { exists: first.published });
    match &second.stage {
        Stage::Finished { result } => {
            assert!(matches!(result, Err(MapError::DestinationExist)))
        },
        _ => panic!("expected a finished run"),
    }
}

#[test]
fn split_final_components() {
    let (parent, name) = split_final("artifacts/deep/w1");
    assert_eq!(parent.as_deref(), Some("artifacts/deep"));
    assert_eq!(name, "w1");
    let (parent, name) = split_final("plain");
    assert_eq!(parent, None);
    assert_eq!(name, "plain");
    let (parent, name) = split_final("dir/");
    assert_eq!(parent.as_deref(), Some("dir"));
    assert_eq!(name, "");
}

#[test]
fn error_messages_match_taxonomy() {
    assert_eq!(MapError::UnzipFailed.message(), "unzip failed");
    assert_eq!(MapError::ConfigTemplateNotFound.message(), "config template not found");
    assert_eq!(MapError::RenderingFiled.message(), "rendering failed");
    assert_eq!(MapError::DestinationExist.message(), "destination exist");
    assert_eq!(MapError::External { reason: "boom".to_string() }.message(), "boom");
}

#[test]
fn master_config_defaults() {
    let m = MasterConfig::default();
    assert_eq!(m.bluemap_config, "config");
    assert_eq!(m.bluemap_web, "web");
    assert_eq!(m.bluemap_jar, "bluemap.jar");
    assert_eq!(m.artifacts, "artifacts");
    assert_eq!(m.maps, "maps");
    assert_eq!(MasterConfig::config_file_rel("master"), "bluemap/master.json");
}
