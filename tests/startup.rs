use mpv_overlay::{engine_options, load_command, log_level, media_path, StartupError, StartupStage};

#[test]
fn missing_media_path_is_an_error() {
    let args = vec!["player".to_string()];
    assert_eq!(media_path(&args), Err(StartupError::MissingMediaPath));
    assert_eq!(StartupError::MissingMediaPath.message(), "missing filename as first argument");
}

#[test]
fn no_arguments_at_all_is_an_error() {
    assert_eq!(media_path(&vec![]), Err(StartupError::MissingMediaPath));
}

#[test]
fn first_argument_is_the_media_path() {
    let args = vec!["player".to_string(), "clip.mkv".to_string(), "extra".to_string()];
    assert_eq!(media_path(&args), Ok("clip.mkv".to_string()));
}

#[test]
fn load_command_names_the_path() {
    assert_eq!(load_command(&"clip.mkv".to_string()), vec!["loadfile".to_string(), "clip.mkv".to_string()]);
}

#[test]
fn option_profile_and_log_level() {
    assert_eq!(
        engine_options(),
        vec![
            ("target-prim".to_string(), "bt.709".to_string()),
            ("target-trc".to_string(), "srgb".to_string())
        ]
    );
    assert_eq!(log_level(), "debug");
}

#[test]
fn startup_stages_in_order() {
    let mut stage = StartupStage::first();
    let expected = [
        StartupStage::CreateSurface,
        StartupStage::MakeSurfaceCurrent,
        StartupStage::CreateEngine,
        StartupStage::ConfigureEngine,
        StartupStage::InitializeEngine,
        StartupStage::CreateRenderContext,
        StartupStage::LoadMedia,
        StartupStage::Running,
    ];
    for next in expected {
        stage = stage.advance(true).unwrap();
        assert_eq!(stage, next);
    }
}

#[test]
fn missing_path_stops_before_any_resource() {
    assert_eq!(StartupStage::first().advance(false), Err(StartupError::MissingMediaPath));
}

#[test]
fn each_fatal_stage_names_its_subsystem() {
    assert_eq!(StartupStage::CreateSurface.advance(false), Err(StartupError::SurfaceCreation));
    assert_eq!(StartupStage::MakeSurfaceCurrent.advance(false), Err(StartupError::SurfaceActivation));
    assert_eq!(StartupError::SurfaceCreation.message(), "Failed to build glutin window");
    assert_eq!(StartupError::SurfaceActivation.message(), "Failed to make window current");
    assert_eq!(StartupError::EngineCreation.message(), "MPV failed to create!");
    assert_eq!(StartupStage::CreateEngine.advance(false), Err(StartupError::EngineCreation));
    assert_eq!(StartupStage::InitializeEngine.advance(false), Err(StartupError::EngineInitialization));
    assert_eq!(StartupStage::CreateRenderContext.advance(false), Err(StartupError::RenderContextCreation));
    assert_eq!(StartupError::EngineInitialization.message(), "MPV failed to initialise!");
    assert_eq!(StartupError::RenderContextCreation.message(), "MPV failed to create the render context!");
}

#[test]
fn option_failures_are_not_fatal() {
    assert_eq!(StartupStage::ConfigureEngine.advance(false), Ok(StartupStage::InitializeEngine));
    assert_eq!(StartupStage::LoadMedia.advance(false), Ok(StartupStage::Running));
}
