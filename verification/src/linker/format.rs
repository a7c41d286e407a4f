use vstd::prelude::*;

verus! {

/// The output format of a link: three axes (static/dynamic linkage,
/// position independence, executable/library kind), of which the PIC
/// axis exists only for executables, so the type has exactly six
/// inhabitants rather than eight.
#[derive(Clone, Copy, Debug, PartialEq, Eq, Structural)]
pub enum OutputFormat {
    DynamicExe,
    DynamicPicExe,
    StaticExe,
    StaticPicExe,
    DynamicDyLib,
    StaticDyLib,
}

impl Default for OutputFormat {
    /// The default format: a dynamically linked, non-PIC executable.
    fn default() -> (r: Self)
        ensures
            r == OutputFormat::DynamicExe,
    {
        OutputFormat::DynamicExe
    }
}

impl OutputFormat {
    /// Whether the format asks for static linkage.
    pub open spec fn is_static(self) -> bool {
        match self {
            OutputFormat::StaticExe | OutputFormat::StaticPicExe | OutputFormat::StaticDyLib => true,
            _ => false,
        }
    }

    /// Whether the format asks for a position-independent executable.
    /// Libraries carry no PIC axis, so this is false for them.
    pub open spec fn is_pic(self) -> bool {
        match self {
            OutputFormat::DynamicPicExe | OutputFormat::StaticPicExe => true,
            _ => false,
        }
    }

    /// Whether the format names a library rather than an executable.
    pub open spec fn is_lib(self) -> bool {
        match self {
            OutputFormat::DynamicDyLib | OutputFormat::StaticDyLib => true,
            _ => false,
        }
    }

    /// What `stat` returns: the sibling with the chosen linkage.
    pub open spec fn spec_stat(&self, flag: bool) -> OutputFormat {
        if flag {
            match self {
                OutputFormat::DynamicExe => OutputFormat::StaticExe,
                OutputFormat::DynamicPicExe => OutputFormat::StaticPicExe,
                OutputFormat::DynamicDyLib => OutputFormat::StaticDyLib,
                _ => *self,
            }
        } else {
            match self {
                OutputFormat::StaticExe => OutputFormat::DynamicExe,
                OutputFormat::StaticPicExe => OutputFormat::DynamicPicExe,
                OutputFormat::StaticDyLib => OutputFormat::DynamicDyLib,
                _ => *self,
            }
        }
    }

    /// What `pic` returns: the sibling with the chosen position
    /// independence; the identity on libraries.
    pub open spec fn spec_pic(&self, flag: bool) -> OutputFormat {
        if flag {
            match self {
                OutputFormat::DynamicExe => OutputFormat::DynamicPicExe,
                OutputFormat::StaticExe => OutputFormat::StaticPicExe,
                _ => *self,
            }
        } else {
            match self {
                OutputFormat::DynamicPicExe => OutputFormat::DynamicExe,
                OutputFormat::StaticPicExe => OutputFormat::StaticExe,
                _ => *self,
            }
        }
    }

    /// What `lib` returns: toward the library the PIC bit is discarded;
    /// back toward the executable it cannot be recovered, so the non-PIC
    /// executable is chosen.
    pub open spec fn spec_lib(&self, flag: bool) -> OutputFormat {
        if flag {
            match self {
                OutputFormat::DynamicExe | OutputFormat::DynamicPicExe => OutputFormat::DynamicDyLib,
                OutputFormat::StaticExe | OutputFormat::StaticPicExe => OutputFormat::StaticDyLib,
                _ => *self,
            }
        } else {
            match self {
                OutputFormat::DynamicDyLib => OutputFormat::DynamicExe,
                OutputFormat::StaticDyLib => OutputFormat::StaticExe,
                _ => *self,
            }
        }
    }

    /// Choose either the static (if `flag` is `true`), or dynamic (else) binary.
    #[verifier::when_used_as_spec(spec_stat)]
    pub fn stat(&self, flag: bool) -> (r: Self)
        ensures
            r == self.spec_stat(flag),
            r.is_static() == flag,
            r.is_pic() == self.is_pic(),
            r.is_lib() == self.is_lib(),
    {
        if flag {
            self.static_()
        } else {
            self.dynamic_()
        }
    }

    /// Choose either the PIC (if `flag` is `true`), or no-PIC (else) binary.
    /// Libraries have no PIC axis and are returned unchanged.
    #[verifier::when_used_as_spec(spec_pic)]
    pub fn pic(&self, flag: bool) -> (r: Self)
        ensures
            r == self.spec_pic(flag),
            r.is_pic() == (flag && !self.is_lib()),
            r.is_static() == self.is_static(),
            r.is_lib() == self.is_lib(),
    {
        if flag {
            self.pic_()
        } else {
            self.no_pic_()
        }
    }

    /// Choose either the library (if `flag` is `true`), or the executable
    /// (else) binary. Projecting to a library discards the PIC bit, and
    /// projecting back cannot recover it.
    #[verifier::when_used_as_spec(spec_lib)]
    pub fn lib(&self, flag: bool) -> (r: Self)
        ensures
            r == self.spec_lib(flag),
            r.is_lib() == flag,
            r.is_static() == self.is_static(),
            r.is_pic() == (!flag && !self.is_lib() && self.is_pic()),
    {
        if flag {
            self.lib_()
        } else {
            self.exe_()
        }
    }

    fn static_(&self) -> (r: Self)
        ensures
            r == self.spec_stat(true),
    {
        match self {
            OutputFormat::DynamicExe => OutputFormat::StaticExe,
            OutputFormat::DynamicPicExe => OutputFormat::StaticPicExe,
            OutputFormat::DynamicDyLib => OutputFormat::StaticDyLib,
            i => *i,
        }
    }

    fn dynamic_(&self) -> (r: Self)
        ensures
            r == self.spec_stat(false),
    {
        match self {
            OutputFormat::StaticExe => OutputFormat::DynamicExe,
            OutputFormat::StaticPicExe => OutputFormat::DynamicPicExe,
            OutputFormat::StaticDyLib => OutputFormat::DynamicDyLib,
            i => *i,
        }
    }

    fn pic_(&self) -> (r: Self)
        ensures
            r == self.spec_pic(true),
    {
        match self {
            OutputFormat::DynamicExe => OutputFormat::DynamicPicExe,
            OutputFormat::StaticExe => OutputFormat::StaticPicExe,
            i => *i,
        }
    }

    fn no_pic_(&self) -> (r: Self)
        ensures
            r == self.spec_pic(false),
    {
        match self {
            OutputFormat::StaticPicExe => OutputFormat::StaticExe,
            OutputFormat::DynamicPicExe => OutputFormat::DynamicExe,
            i => *i,
        }
    }

    fn lib_(&self) -> (r: Self)
        ensures
            r == self.spec_lib(true),
    {
        match self {
            OutputFormat::DynamicExe | OutputFormat::DynamicPicExe => OutputFormat::DynamicDyLib,
            OutputFormat::StaticExe | OutputFormat::StaticPicExe => OutputFormat::StaticDyLib,
            i => *i,
        }
    }

    fn exe_(&self) -> (r: Self)
        ensures
            r == self.spec_lib(false),
    {
        match self {
            OutputFormat::StaticDyLib => OutputFormat::StaticExe,
            OutputFormat::DynamicDyLib => OutputFormat::DynamicExe,
            i => *i,
        }
    }
}

/// Choosing a linkage is idempotent: choosing the same linkage again
/// changes nothing.
pub proof fn lemma_stat_idempotent(f: OutputFormat, b: bool)
    ensures
        f.stat(b).stat(b) == f.stat(b),
{
}

/// Choosing position independence is idempotent: choosing the same
/// setting again changes nothing.
pub proof fn lemma_pic_idempotent(f: OutputFormat, b: bool)
    ensures
        f.pic(b).pic(b) == f.pic(b),
{
}

/// Choosing the kind is idempotent as well, although `lib` is lossy:
/// the PIC bit that a first projection to a library discards stays
/// discarded, so a second projection has nothing left to change.
pub proof fn lemma_lib_idempotent(f: OutputFormat, b: bool)
    ensures
        f.lib(b).lib(b) == f.lib(b),
{
}

} // verus!
