use vstd::prelude::*;

verus! {

/// Why the program cannot start; each names the subsystem that failed.
#[derive(Clone, Copy, Debug, PartialEq, Eq, Structural)]
pub enum StartupError {
    /// No media path was given on the command line.
    MissingMediaPath,
    SurfaceCreation,
    SurfaceActivation,
    EngineCreation,
    EngineInitialization,
    RenderContextCreation,
}

pub open spec fn message_of(e: StartupError) -> Seq<char> {
    match e {
        StartupError::MissingMediaPath => "missing filename as first argument"@,
        StartupError::SurfaceCreation => "Failed to build glutin window"@,
        StartupError::SurfaceActivation => "Failed to make window current"@,
        StartupError::EngineCreation => "MPV failed to create!"@,
        StartupError::EngineInitialization => "MPV failed to initialise!"@,
        StartupError::RenderContextCreation => "MPV failed to create the render context!"@,
    }
}

impl StartupError {
    /// The diagnostic printed before the process stops.
    pub fn message(&self) -> (r: String)
        ensures
            r@ == message_of(*self),
    {
        match self {
            StartupError::MissingMediaPath => "missing filename as first argument".to_owned(),
            StartupError::SurfaceCreation => "Failed to build glutin window".to_owned(),
            StartupError::SurfaceActivation => "Failed to make window current".to_owned(),
            StartupError::EngineCreation => "MPV failed to create!".to_owned(),
            StartupError::EngineInitialization => "MPV failed to initialise!".to_owned(),
            StartupError::RenderContextCreation => "MPV failed to create the render context!".to_owned(),
        }
    }
}

/// The startup sequence, in order. The media path is checked before any
/// resource exists; the render context is created once both the GPU surface
/// and an initialized engine exist.
#[derive(Clone, Copy, Debug, PartialEq, Eq, Structural)]
pub enum StartupStage {
    CheckMediaPath,
    CreateSurface,
    MakeSurfaceCurrent,
    CreateEngine,
    ConfigureEngine,
    InitializeEngine,
    CreateRenderContext,
    LoadMedia,
    Running,
}

/// Position of a stage in the sequence.
pub open spec fn stage_index(s: StartupStage) -> nat {
    match s {
        StartupStage::CheckMediaPath => 0,
        StartupStage::CreateSurface => 1,
        StartupStage::MakeSurfaceCurrent => 2,
        StartupStage::CreateEngine => 3,
        StartupStage::ConfigureEngine => 4,
        StartupStage::InitializeEngine => 5,
        StartupStage::CreateRenderContext => 6,
        StartupStage::LoadMedia => 7,
        StartupStage::Running => 8,
    }
}

/// The stage after `s` given whether it succeeded. Option failures and the
/// asynchronous load are not fatal; every other failure stops startup.
pub open spec fn stage_after(s: StartupStage, succeeded: bool) -> Result<StartupStage, StartupError> {
    match s {
        StartupStage::CheckMediaPath => if succeeded {
            Ok(StartupStage::CreateSurface)
        } else {
            Err(StartupError::MissingMediaPath)
        },
        StartupStage::CreateSurface => if succeeded {
            Ok(StartupStage::MakeSurfaceCurrent)
        } else {
            Err(StartupError::SurfaceCreation)
        },
        StartupStage::MakeSurfaceCurrent => if succeeded {
            Ok(StartupStage::CreateEngine)
        } else {
            Err(StartupError::SurfaceActivation)
        },
        StartupStage::CreateEngine => if succeeded {
            Ok(StartupStage::ConfigureEngine)
        } else {
            Err(StartupError::EngineCreation)
        },
        StartupStage::ConfigureEngine => Ok(StartupStage::InitializeEngine),
        StartupStage::InitializeEngine => if succeeded {
            Ok(StartupStage::CreateRenderContext)
        } else {
            Err(StartupError::EngineInitialization)
        },
        StartupStage::CreateRenderContext => if succeeded {
            Ok(StartupStage::LoadMedia)
        } else {
            Err(StartupError::RenderContextCreation)
        },
        StartupStage::LoadMedia => Ok(StartupStage::Running),
        StartupStage::Running => Ok(StartupStage::Running),
    }
}

impl StartupStage {
    /// Startup begins by checking the command line.
    pub fn first() -> (r: StartupStage)
        ensures
            r == StartupStage::CheckMediaPath,
            stage_index(r) == 0,
    {
        StartupStage::CheckMediaPath
    }

    /// Moves on from this stage once it has been attempted.
    pub fn advance(self, succeeded: bool) -> (r: Result<StartupStage, StartupError>)
        ensures
            r == stage_after(self, succeeded),
            r is Ok && self != StartupStage::Running ==> stage_index(r->Ok_0) == stage_index(self) + 1,
    {
        match self {
            StartupStage::CheckMediaPath => if succeeded {
                Ok(StartupStage::CreateSurface)
            } else {
                Err(StartupError::MissingMediaPath)
            },
            StartupStage::CreateSurface => if succeeded {
                Ok(StartupStage::MakeSurfaceCurrent)
            } else {
                Err(StartupError::SurfaceCreation)
            },
            StartupStage::MakeSurfaceCurrent => if succeeded {
                Ok(StartupStage::CreateEngine)
            } else {
                Err(StartupError::SurfaceActivation)
            },
            StartupStage::CreateEngine => if succeeded {
                Ok(StartupStage::ConfigureEngine)
            } else {
                Err(StartupError::EngineCreation)
            },
            StartupStage::ConfigureEngine => Ok(StartupStage::InitializeEngine),
            StartupStage::InitializeEngine => if succeeded {
                Ok(StartupStage::CreateRenderContext)
            } else {
                Err(StartupError::EngineInitialization)
            },
            StartupStage::CreateRenderContext => if succeeded {
                Ok(StartupStage::LoadMedia)
            } else {
                Err(StartupError::RenderContextCreation)
            },
            StartupStage::LoadMedia => Ok(StartupStage::Running),
            StartupStage::Running => Ok(StartupStage::Running),
        }
    }
}

/// The stage reached from the first one after attempting stages in order
/// with the given outcomes, or the error that stopped startup.
pub open spec fn startup_run(outcomes: Seq<bool>) -> Result<StartupStage, StartupError>
    decreases outcomes.len(),
{
    if outcomes.len() == 0 {
        Ok(StartupStage::CheckMediaPath)
    } else {
        match startup_run(outcomes.drop_last()) {
            Ok(s) => stage_after(s, outcomes.last()),
            Err(e) => Err(e),
        }
    }
}

/// Stages are reached one after another: after k attempts that all went on,
/// the k-th stage is reached. So the surface and the engine exist before the
/// render context is created, and a missing media path stops startup before
/// any resource is created.
pub proof fn lemma_startup_in_order(outcomes: Seq<bool>)
    requires
        outcomes.len() <= 8,
    ensures
        startup_run(outcomes) is Ok ==> stage_index(startup_run(outcomes)->Ok_0) == outcomes.len(),
        outcomes.len() >= 1 && !outcomes[0] ==> startup_run(outcomes) == Err::<StartupStage, StartupError>(
            StartupError::MissingMediaPath,
        ),
    decreases outcomes.len(),
{
    if outcomes.len() > 0 {
        lemma_startup_in_order(outcomes.drop_last());
        if outcomes.len() >= 2 && !outcomes[0] {
            assert(outcomes.drop_last()[0] == outcomes[0]);
        }
    }
}

/// Picks the media path out of the command line (program name first): the
/// first argument after the program name, or an error when there is none.
pub fn media_path(args: &Vec<String>) -> (r: Result<String, StartupError>)
    ensures
        args@.len() >= 2 <==> r is Ok,
        args@.len() >= 2 ==> r->Ok_0@ == args@[1]@,
        args@.len() < 2 ==> r == Err::<String, StartupError>(StartupError::MissingMediaPath),
{
    if args.len() < 2 {
        Err(StartupError::MissingMediaPath)
    } else {
        Ok(args[1].clone())
    }
}

/// The engine command that starts loading a media path.
pub fn load_command(path: &String) -> (r: Vec<String>)
    ensures
        r@.len() == 2,
        r@[0]@ == "loadfile"@,
        r@[1]@ == path@,
{
    let mut r: Vec<String> = Vec::new();
    r.push("loadfile".to_owned());
    r.push(path.clone());
    proof {
        reveal_strlit("loadfile");
    }
    r
}

/// The engine options set before initialization, as name and value: output
/// in BT.709 primaries with the sRGB transfer curve. Each may fail on its own
/// without stopping startup.
pub open spec fn option_profile() -> Seq<(Seq<char>, Seq<char>)> {
    seq![("target-prim"@, "bt.709"@), ("target-trc"@, "srgb"@)]
}

pub fn engine_options() -> (r: Vec<(String, String)>)
    ensures
        r@.len() == option_profile().len(),
        forall|i: int| 0 <= i < r@.len() ==> (#[trigger] r@[i].0@, r@[i].1@) == option_profile()[i],
{
    let mut r: Vec<(String, String)> = Vec::new();
    r.push(("target-prim".to_owned(), "bt.709".to_owned()));
    r.push(("target-trc".to_owned(), "srgb".to_owned()));
    r
}

/// The log level asked of the engine.
pub fn log_level() -> (r: String)
    ensures
        r@ == "debug"@,
{
    "debug".to_owned()
}

} // verus!
