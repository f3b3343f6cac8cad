//! The course of a compilation: which job comes next, and what becomes of its output.
use crate::compile::{
    builtin_input, required_builtins, CompileInput, CompileInputs, CompileKey, CompileOutput,
    CompiledFunction, RelocationTarget,
};
use crate::builtins::BuiltinFunction;
use crate::errors::Error;
use crate::link::UnlinkedCompileOutputs;
use vstd::prelude::*;

verus! {

/// The jobs of a module while they are done one after the other. When the last one is done, the
/// trampolines of the builtin functions that the outputs refer to follow.
pub struct Compilation {
    jobs: Vec<CompileInput>,
    num_module_jobs: usize,
    outputs: Vec<CompileOutput>,
}

/// A compilation: the jobs of the module, and the outputs of the jobs that are done.
#[verifier::ext_equal]
pub struct CompilationModel {
    pub module_jobs: Seq<(CompileKey, Seq<char>)>,
    pub outputs: Seq<CompileOutput>,
}

/// The keys and the symbols of jobs.
pub open spec fn models(jobs: Seq<CompileInput>) -> Seq<(CompileKey, Seq<char>)> {
    jobs.map_values(|input: CompileInput| input.model())
}

/// The jobs of the trampolines of builtin functions.
pub open spec fn builtin_jobs(builtins: Seq<BuiltinFunction>) -> Seq<(CompileKey, Seq<char>)> {
    builtins.map_values(
        |b: BuiltinFunction|
            (CompileKey::WasmToBuiltinTrampoline(b), crate::compile::builtin_symbol(b)),
    )
}

impl View for Compilation {
    type V = CompilationModel;

    closed spec fn view(&self) -> CompilationModel {
        CompilationModel {
            module_jobs: models(self.jobs@).take(self.num_module_jobs as int),
            outputs: self.outputs@,
        }
    }
}

impl CompilationModel {
    /// All jobs that are known: those of the module, and once they are done, those of the builtin
    /// functions that their outputs refer to.
    pub open spec fn jobs(self) -> Seq<(CompileKey, Seq<char>)> {
        if self.outputs.len() < self.module_jobs.len() {
            self.module_jobs
        } else {
            self.module_jobs + builtin_jobs(
                crate::compile::builtins_of(self.outputs.take(self.module_jobs.len() as int)),
            )
        }
    }

    /// Every output has the key and the symbol of its job.
    pub open spec fn wf(self) -> bool {
        &&& self.outputs.len() <= self.jobs().len()
        &&& forall|i: int|
            0 <= i < self.outputs.len() ==> {
                &&& (#[trigger] self.outputs[i]).key == self.jobs()[i].0
                &&& self.outputs[i].symbol@ == self.jobs()[i].1
            }
    }

    /// Whether all jobs are done.
    pub open spec fn is_done(self) -> bool {
        self.outputs.len() == self.jobs().len()
    }
}

/// When all jobs are done, every builtin function that a function of the module refers to has its
/// trampoline among the outputs.
pub proof fn referenced_builtins_are_compiled(c: CompilationModel, i: int, k: int)
    requires
        c.wf(),
        c.is_done(),
        0 <= i < c.module_jobs.len(),
        0 <= k < c.outputs[i].function.relocations@.len(),
        c.outputs[i].function.relocations@[k].target is Builtin,
    ensures
        exists|j: int|
            0 <= j < c.outputs.len() && (#[trigger] c.outputs[j]).key
                == CompileKey::WasmToBuiltinTrampoline(
                c.outputs[i].function.relocations@[k].target->Builtin_0,
            ),
{
    let n = c.module_jobs.len() as int;
    let done = c.outputs.take(n);
    let builtins = crate::compile::builtins_of(done);
    let b = c.outputs[i].function.relocations@[k].target->Builtin_0;
    crate::compile::required_builtins_are_complete(done);
    assert(done[i].function.relocations@[k].target == RelocationTarget::Builtin(b));
    assert(builtins.contains(b));
    let j = choose|j: int| 0 <= j < builtins.len() && builtins[j] == b;
    assert(c.jobs()[n + j] == builtin_jobs(builtins)[j]);
    assert(c.outputs[n + j].key == CompileKey::WasmToBuiltinTrampoline(b));
}

impl CompileInputs {
    /// Begins to compile.
    pub fn compile(self) -> (r: Compilation)
        ensures
            r.wf(),
            r@.wf(),
            r@.module_jobs == self.model(),
            r@.outputs == Seq::<CompileOutput>::empty(),
    {
        let num_module_jobs: usize = self.0.len();
        let r = Compilation { jobs: self.0, num_module_jobs, outputs: Vec::new() };
        assert(r@.module_jobs =~= self.model());
        assert(r.outputs@.take(0) =~= Seq::empty());
        assert(models(r.jobs@) =~= r@.jobs());
        r
    }
}

impl Compilation {
    /// The jobs are those that are known.
    pub closed spec fn wf(self) -> bool {
        &&& self.num_module_jobs <= self.jobs@.len()
        &&& models(self.jobs@) == self@.jobs()
        &&& self@.wf()
    }

    /// The next job, unless all are done.
    pub fn next_job(&self) -> (r: Option<&CompileInput>)
        requires
            self.wf(),
        ensures
            r is None <==> self@.is_done(),
            r matches Some(input) ==> input.model() == self@.jobs()[self@.outputs.len() as int],
    {
        assert(self@.jobs().len() == self.jobs@.len());
        if self.outputs.len() < self.jobs.len() {
            assert(models(self.jobs@)[self.outputs@.len() as int]
                == self.jobs@[self.outputs@.len() as int].model());
            Some(&self.jobs[self.outputs.len()])
        } else {
            None
        }
    }

    /// Takes the result of the next job; an error ends the compilation.
    pub fn complete(&mut self, result: Result<CompiledFunction, Error>) -> (r: Result<(), Error>)
        requires
            old(self).wf(),
            !old(self)@.is_done(),
        ensures
            final(self).wf(),
            final(self)@.wf(),
            final(self)@.module_jobs == old(self)@.module_jobs,
            match result {
                Ok(function) => {
                    let job = old(self)@.jobs()[old(self)@.outputs.len() as int];
                    &&& r is Ok
                    &&& final(self)@.outputs.len() == old(self)@.outputs.len() + 1
                    &&& final(self)@.outputs.drop_last() == old(self)@.outputs
                    &&& final(self)@.outputs.last().key == job.0
                    &&& final(self)@.outputs.last().symbol@ == job.1
                    &&& final(self)@.outputs.last().function == function
                },
                Err(e) => r == Err::<(), Error>(e) && final(self)@ == old(self)@,
            },
    {
        let function = match result {
            Ok(function) => function,
            Err(e) => return Err(e),
        };
        let ghost before = *self;
        let at: usize = self.outputs.len();
        assert(self@.jobs().len() == self.jobs@.len());
        let key = self.jobs[at].key;
        let symbol = String::from_str(self.jobs[at].symbol.as_str());
        assert(models(self.jobs@)[at as int] == (key, symbol@));
        self.outputs.push(CompileOutput { key, function, symbol });
        assert(self.outputs@.drop_last() =~= before.outputs@);
        let ghost n = self.num_module_jobs as int;
        assert(before@.module_jobs.len() == n);
        if self.outputs.len() == self.num_module_jobs {
            assert(before@.jobs() == before@.module_jobs);
            assert(self.jobs@.len() == n);
            let builtins = required_builtins(&self.outputs);
            assert(self.outputs@.take(n) =~= self.outputs@);
            for i in 0..builtins.len()
                invariant
                    self.num_module_jobs == before.num_module_jobs,
                    n == self.num_module_jobs,
                    before.jobs@.len() == n,
                    self.jobs@.len() == n + i,
                    models(self.jobs@) == models(before.jobs@) + builtin_jobs(
                        builtins@.take(i as int),
                    ),
                    self.outputs@.len() == n,
                    self.outputs@.drop_last() == before.outputs@,
                    self.outputs@.last() == (CompileOutput { key, function, symbol }),
                    self.outputs@.take(n) == self.outputs@,
                    builtins@ == crate::compile::builtins_of(self.outputs@),
            {
                let ghost jobs = self.jobs@;
                let input = builtin_input(builtins[i]);
                self.jobs.push(input);
                assert(models(self.jobs@) =~= models(jobs).push(input.model()));
                assert(builtin_jobs(builtins@.take(i + 1)) =~= builtin_jobs(
                    builtins@.take(i as int),
                ).push(input.model()));
                assert(models(self.jobs@) =~= models(before.jobs@) + builtin_jobs(
                    builtins@.take(i + 1),
                ));
            }
            assert(builtins@.take(builtins@.len() as int) =~= builtins@);
            assert(models(self.jobs@).take(n) =~= models(before.jobs@));
            assert(before@.module_jobs =~= models(before.jobs@));
            assert(self@.module_jobs =~= before@.module_jobs);
            assert(models(self.jobs@) =~= self@.jobs());
        } else {
            assert(self@.module_jobs == before@.module_jobs);
            proof {
                if at >= n {
                    assert(self.outputs@.take(n) =~= before.outputs@.take(n));
                }
            }
            assert(self@.jobs() == before@.jobs());
        }
        proof {
            assert forall|i: int| 0 <= i < self@.outputs.len() implies {
                &&& (#[trigger] self@.outputs[i]).key == self@.jobs()[i].0
                &&& self@.outputs[i].symbol@ == self@.jobs()[i].1
            } by {
                assert(self@.jobs()[i] == before@.jobs()[i]);
                if i < at {
                    assert(self@.outputs[i] == before@.outputs[i]);
                }
            }
        }
        Ok(())
    }

    /// The outputs of all jobs, ready to be linked.
    pub fn finish(self) -> (r: UnlinkedCompileOutputs)
        requires
            self.wf(),
            self@.is_done(),
        ensures
            r.wf(),
            r@ == self@.outputs,
    {
        UnlinkedCompileOutputs::new(self.outputs)
    }
}

} // verus!
