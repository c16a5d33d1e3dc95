//! Running the tracer inside a container.

use crate::arch::Arch;
use crate::text::{base_name, base_name_of, texts_of};
use vstd::prelude::*;
use vstd::string::StringExecFns;

verus! {

/// The name of the container that a new runner gets.
pub const RUNNER_NAME: &'static str = "rebg-runner";

/// How the container is chosen: an existing one, or a new one from an image.
#[derive(Debug, Clone)]
pub struct DockerArgs {
    /// The image of a new container; not looked at if `container` is set.
    pub image: Option<String>,
    /// An existing container.
    pub container: Option<String>,
}

/// All that is needed to start a new container.
#[derive(Debug, Clone)]
pub struct DockerSpawner {
    pub program: String,
    pub arch: Arch,
    pub image: String,
}

/// A running container.
#[derive(Debug, Clone)]
pub struct Docker {
    pub target_arch: Arch,
    /// The running container.
    pub id: String,
}

/// What is to be done to have a container.
#[derive(Debug, Clone)]
pub enum DockerStart {
    /// The container runs already.
    Running(Docker),
    /// A container has to be started.
    Spawn(DockerSpawner),
}

/// The image of a new container: the one asked for, else the image of the
/// architecture.
pub open spec fn image_name(image: Option<String>, arch: Arch) -> Seq<char> {
    match image {
        Some(name) => name@,
        None => "rebg:"@ + arch.architecture_name(),
    }
}

/// The arguments of a tracer as they hold inside the container: the last
/// one, the program, lies in the directory `/container`.
pub open spec fn guest_args(args: Seq<Seq<char>>, file_name: Seq<char>) -> Seq<Seq<char>> {
    args.update(args.len() - 1, "/container/"@ + file_name)
}

/// The arguments to the container runtime that run `program` with
/// `args` inside the container `id`.
pub open spec fn exec_args(id: Seq<char>, program: Seq<char>, args: Seq<Seq<char>>) -> Seq<
    Seq<char>,
> {
    seq!["exec"@, "-i"@, id, program] + args
}

impl DockerArgs {
    /// Decides how to get a container: the one that was named runs
    /// already; else one has to be started, from the image that was named
    /// or from that of the architecture.
    pub fn start(self, program: String, arch: Arch) -> (r: DockerStart)
        ensures
            match self.container {
                Some(id) => r matches DockerStart::Running(docker) && docker.id == id
                    && docker.target_arch == arch,
                None => r matches DockerStart::Spawn(spawner) && spawner.program == program
                    && spawner.arch == arch && spawner.image@ == image_name(self.image, arch),
            },
    {
        let image = match self.image {
            Some(image) => image,
            None => String::from_str("rebg:").concat(arch.architecture_str()),
        };
        match self.container {
            Some(id) => DockerStart::Running(Docker { target_arch: arch, id }),
            None => DockerStart::Spawn(DockerSpawner { program, arch, image }),
        }
    }
}

impl DockerSpawner {
    /// The host that the new container is, once it was started and got the id `id`.
    pub fn spawn(self, id: String) -> (docker: Docker)
        ensures
            docker.id == id,
            docker.target_arch == self.arch,
    {
        Docker { target_arch: self.arch, id }
    }
}

impl Docker {
    /// The arguments of the tracer as they hold inside the container,
    /// given the file name of the traced program.
    pub fn place_program(args: Vec<String>, file_name: &str) -> (r: Vec<String>)
        requires
            args@.len() > 0,
        ensures
            texts_of(r@) == guest_args(texts_of(args@), file_name@),
    {
        let mut args = args;
        let ghost before = texts_of(args@);
        let last = args.len() - 1;
        args[last] = String::from_str("/container/").concat(file_name);
        assert(texts_of(args@) =~= guest_args(before, file_name@));
        args
    }

    /// The arguments to the container runtime that launch the tracer
    /// `program` inside this container. The last of `args` is the traced
    /// program; inside the container it lies in `/container`.
    ///
    /// There is no command if there are no arguments, or if the last one has no file name.
    pub fn launch_args(&self, program: &str, args: Vec<String>) -> (r: Option<Vec<String>>)
        ensures
            match r {
                Some(all) => args@.len() > 0 && base_name_of(args@.last()@) is Some && texts_of(all@)
                    == exec_args(
                    self.id@,
                    program@,
                    guest_args(texts_of(args@), base_name_of(args@.last()@)->0),
                ),
                None => args@.len() == 0 || base_name_of(args@.last()@) is None,
            },
    {
        if args.len() == 0 {
            return None;
        }
        let name = match base_name(args[args.len() - 1].as_str()) {
            Some(name) => String::from_str(name),
            None => {
                return None;
            },
        };
        let inside = Self::place_program(args, name.as_str());
        let mut all: Vec<String> = Vec::new();
        all.push(String::from_str("exec"));
        all.push(String::from_str("-i"));
        all.push(self.id.clone());
        all.push(String::from_str(program));
        let ghost head = texts_of(all@);
        let mut i: usize = 0;
        while i < inside.len()
            invariant
                i <= inside@.len(),
                head == seq!["exec"@, "-i"@, self.id@, program@],
                texts_of(all@) =~= head + texts_of(inside@).subrange(0, i as int),
            decreases inside.len() - i,
        {
            let ghost before = texts_of(all@);
            all.push(inside[i].clone());
            proof {
                assert(texts_of(all@) =~= before.push(inside@[i as int]@));
                assert(texts_of(inside@).subrange(0, i + 1) =~= texts_of(inside@).subrange(
                    0,
                    i as int,
                ).push(inside@[i as int]@));
            }
            i += 1;
        }
        assert(texts_of(inside@).subrange(0, i as int) =~= texts_of(inside@));
        Some(all)
    }
}

} // verus!
