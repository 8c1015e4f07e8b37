//! The shader pair and the interpretation of the driver's status replies.
//!
//! The renderer compiles one fixed vertex shader, which passes a
//! three-component position through unchanged, and one fixed fragment
//! shader, which emits a single opaque color, and links the two into one
//! program. The driver answers each compile and the link with an integer
//! status. A failed step is reported, never fatal: the renderer logs the
//! driver's diagnostic and carries on with whatever identifiers it has.

use vstd::prelude::*;

verus! {

/// The status value with which the driver reports success of a compile or a
/// link.
pub const STATUS_TRUE: i32 = 1;

/// How many bytes the buffer for a driver diagnostic holds.
pub const INFO_LOG_BUFFER_LEN: usize = 512;

/// The vertex shader: the three-component position attribute at slot zero,
/// passed through unchanged.
pub open spec fn spec_vertex_shader_source() -> Seq<char> {
    "#version 330 core\nlayout (location = 0) in vec3 aPos;\nvoid main() {\n    gl_Position = vec4(aPos.x, aPos.y, aPos.z, 1.0);\n}\n"@
}

/// The fragment shader: every fragment gets the same fixed opaque color.
pub open spec fn spec_fragment_shader_source() -> Seq<char> {
    "#version 330 core\nout vec4 FragColor;\nvoid main() {\n    FragColor = vec4(1.0, 0.5, 0.2, 1.0);\n}\n"@
}

/// The source text of the vertex shader.
pub fn vertex_shader_source() -> (s: &'static str)
    ensures
        s@ == spec_vertex_shader_source(),
{
    "#version 330 core\nlayout (location = 0) in vec3 aPos;\nvoid main() {\n    gl_Position = vec4(aPos.x, aPos.y, aPos.z, 1.0);\n}\n"
}

/// The source text of the fragment shader.
pub fn fragment_shader_source() -> (s: &'static str)
    ensures
        s@ == spec_fragment_shader_source(),
{
    "#version 330 core\nout vec4 FragColor;\nvoid main() {\n    FragColor = vec4(1.0, 0.5, 0.2, 1.0);\n}\n"
}

/// Both shader sources are non-empty and open by naming the language
/// version and profile they are written against.
pub proof fn lemma_sources_declare_version()
    ensures
        spec_vertex_shader_source().len() > 0,
        spec_fragment_shader_source().len() > 0,
        spec_vertex_shader_source().subrange(0, 17) == "#version 330 core"@,
        spec_fragment_shader_source().subrange(0, 17) == "#version 330 core"@,
{
    reveal_strlit("#version 330 core");
    reveal_strlit(
        "#version 330 core\nlayout (location = 0) in vec3 aPos;\nvoid main() {\n    gl_Position = vec4(aPos.x, aPos.y, aPos.z, 1.0);\n}\n",
    );
    reveal_strlit(
        "#version 330 core\nout vec4 FragColor;\nvoid main() {\n    FragColor = vec4(1.0, 0.5, 0.2, 1.0);\n}\n",
    );
    assert(spec_vertex_shader_source().subrange(0, 17) =~= "#version 330 core"@);
    assert(spec_fragment_shader_source().subrange(0, 17) =~= "#version 330 core"@);
}

/// The steps of building the program, in the order they run.
#[derive(Clone, Copy, Debug, PartialEq, Eq, Structural)]
pub enum BuildStep {
    CompileVertexShader,
    CompileFragmentShader,
    LinkProgram,
}

/// What the driver reported of each build step.
#[derive(Clone, Copy, Debug, PartialEq, Eq, Structural)]
pub struct BuildReport {
    pub vertex_compiled: bool,
    pub fragment_compiled: bool,
    pub program_linked: bool,
}

/// The steps whose status the driver reported as failed, in build order.
pub open spec fn spec_failed_steps(r: BuildReport) -> Seq<BuildStep> {
    (if !r.vertex_compiled {
        seq![BuildStep::CompileVertexShader]
    } else {
        Seq::empty()
    }) + (if !r.fragment_compiled {
        seq![BuildStep::CompileFragmentShader]
    } else {
        Seq::empty()
    }) + (if !r.program_linked {
        seq![BuildStep::LinkProgram]
    } else {
        Seq::empty()
    })
}

impl BuildReport {
    /// The whole build succeeded: both compiles and the link.
    pub open spec fn spec_succeeded(self) -> bool {
        self.vertex_compiled && self.fragment_compiled && self.program_linked
    }

    /// Read the three status integers the driver returned. A step succeeded
    /// exactly when its status is [`STATUS_TRUE`].
    pub fn from_statuses(vertex_status: i32, fragment_status: i32, link_status: i32) -> (r:
        BuildReport)
        ensures
            r.vertex_compiled == (vertex_status == STATUS_TRUE),
            r.fragment_compiled == (fragment_status == STATUS_TRUE),
            r.program_linked == (link_status == STATUS_TRUE),
    {
        BuildReport {
            vertex_compiled: vertex_status == STATUS_TRUE,
            fragment_compiled: fragment_status == STATUS_TRUE,
            program_linked: link_status == STATUS_TRUE,
        }
    }

    /// The whole build succeeded: both compiles and the link.
    pub fn succeeded(&self) -> (b: bool)
        ensures
            b == self.spec_succeeded(),
    {
        self.vertex_compiled && self.fragment_compiled && self.program_linked
    }

    /// The steps to report diagnostics for, in build order. A failed step is
    /// reported and execution continues: the build is never fatal.
    pub fn failed_steps(&self) -> (v: Vec<BuildStep>)
        ensures
            v@ == spec_failed_steps(*self),
            self.spec_succeeded() <==> v@.len() == 0,
    {
        let mut v: Vec<BuildStep> = Vec::new();
        if !self.vertex_compiled {
            v.push(BuildStep::CompileVertexShader);
        }
        if !self.fragment_compiled {
            v.push(BuildStep::CompileFragmentShader);
        }
        if !self.program_linked {
            v.push(BuildStep::LinkProgram);
        }
        proof {
            assert(v@ =~= spec_failed_steps(*self));
        }
        v
    }
}

/// How many bytes of a driver diagnostic are read out of the buffer: all but
/// the trailing NUL terminator.
pub fn info_log_read_len() -> (n: usize)
    ensures
        n == INFO_LOG_BUFFER_LEN - 1,
{
    INFO_LOG_BUFFER_LEN - 1
}

} // verus!
