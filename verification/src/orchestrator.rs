//! The run plan for one conversion: the thirteen catalog jobs with their
//! file names, the state machine each job moves through, the bounded worker
//! pool that admits them, and the final summary. The loop that actually
//! dispatches work lives outside the library; it asks this module which
//! transition to take, whether a worker slot is free, and what the run
//! amounts to.

use vstd::prelude::*;
use vstd::string::StringExecFns;
use crate::catalog::ConvertError;
use crate::catalog::AtcRecord;
use crate::catalog::DcpRecord;
use crate::catalog::DcpfRecord;
use crate::catalog::DcsaRecord;
use crate::catalog::ContainerRecord;
use crate::catalog::ExcipientRecord;
use crate::catalog::PharmaceuticalFormRecord;
use crate::catalog::SimplifiedPharmaceuticalFormRecord;
use crate::catalog::LaboratoryRecord;
use crate::catalog::ActiveIngridientRecord;
use crate::catalog::RegistrationStatusRecord;
use crate::catalog::ContainerUnitRecord;
use crate::catalog::AdministrationRouteRecord;
use crate::catalog::CatalogRecord;

verus! {

/// The thirteen catalog dictionaries.
#[derive(Debug, Clone, Copy, PartialEq, Eq, Structural)]
pub enum CatalogKind {
    Atc,
    Dcp,
    Dcpf,
    Dcsa,
    Container,
    Excipient,
    PharmaceuticalForm,
    SimplifiedPharmaceuticalForm,
    Laboratory,
    ActiveIngredient,
    RegistrationStatus,
    ContainerUnit,
    AdministrationRoute,
}

/// One catalog job: which dictionary it converts, the XML file it reads and
/// the CSV file it writes.
pub struct CatalogJob {
    pub kind: CatalogKind,
    pub xml_name: String,
    pub csv_name: String,
}

/// Whether a catalog text converts for a job of this kind: it parses as a
/// document holding at least one readable item of that kind.
pub open spec fn job_accepts(kind: CatalogKind, xml: Seq<char>) -> bool {
    match kind {
        CatalogKind::Atc => crate::catalog::atc_text_ok(xml),
        CatalogKind::Dcp => crate::catalog::catalog_text_ok::<DcpRecord>(xml, "dcp"@),
        CatalogKind::Dcpf => crate::catalog::catalog_text_ok::<DcpfRecord>(xml, "dcpf"@),
        CatalogKind::Dcsa => crate::catalog::catalog_text_ok::<DcsaRecord>(xml, "dcsa"@),
        CatalogKind::Container => crate::catalog::catalog_text_ok::<ContainerRecord>(xml, "envases"@),
        CatalogKind::Excipient => crate::catalog::catalog_text_ok::<ExcipientRecord>(xml, "excipientes"@),
        CatalogKind::PharmaceuticalForm => crate::catalog::catalog_text_ok::<PharmaceuticalFormRecord>(xml, "formasfarmaceuticas"@),
        CatalogKind::SimplifiedPharmaceuticalForm => crate::catalog::catalog_text_ok::<SimplifiedPharmaceuticalFormRecord>(xml, "formasfarmaceuticassimplificadas"@),
        CatalogKind::Laboratory => crate::catalog::catalog_text_ok::<LaboratoryRecord>(xml, "laboratorios"@),
        CatalogKind::ActiveIngredient => crate::catalog::catalog_text_ok::<ActiveIngridientRecord>(xml, "principiosactivos"@),
        CatalogKind::RegistrationStatus => crate::catalog::catalog_text_ok::<RegistrationStatusRecord>(xml, "situacionesregistro"@),
        CatalogKind::ContainerUnit => crate::catalog::catalog_text_ok::<ContainerUnitRecord>(xml, "unidadescontenido"@),
        CatalogKind::AdministrationRoute => crate::catalog::catalog_text_ok::<AdministrationRouteRecord>(xml, "viasadministracion"@),
    }
}

/// The table a job of this kind produces from a text that converts: the
/// catalog table of the document the parse model assigns to the text, with
/// the ATC cleaning rule applied for the ATC kind.
pub open spec fn job_output_ok(kind: CatalogKind, xml: Seq<char>, csv: Seq<char>) -> bool {
    match kind {
        CatalogKind::Atc => csv == crate::catalog::atc_csv_of_text(xml),
        CatalogKind::Dcp => csv == crate::catalog::catalog_csv_of_text::<DcpRecord>(
            xml,
            "dcp"@,
        ),
        CatalogKind::Dcpf => csv == crate::catalog::catalog_csv_of_text::<DcpfRecord>(
            xml,
            "dcpf"@,
        ),
        CatalogKind::Dcsa => csv == crate::catalog::catalog_csv_of_text::<DcsaRecord>(
            xml,
            "dcsa"@,
        ),
        CatalogKind::Container => csv == crate::catalog::catalog_csv_of_text::<ContainerRecord>(
            xml,
            "envases"@,
        ),
        CatalogKind::Excipient => csv == crate::catalog::catalog_csv_of_text::<ExcipientRecord>(
            xml,
            "excipientes"@,
        ),
        CatalogKind::PharmaceuticalForm => csv == crate::catalog::catalog_csv_of_text::<PharmaceuticalFormRecord>(
            xml,
            "formasfarmaceuticas"@,
        ),
        CatalogKind::SimplifiedPharmaceuticalForm => csv == crate::catalog::catalog_csv_of_text::<SimplifiedPharmaceuticalFormRecord>(
            xml,
            "formasfarmaceuticassimplificadas"@,
        ),
        CatalogKind::Laboratory => csv == crate::catalog::catalog_csv_of_text::<LaboratoryRecord>(
            xml,
            "laboratorios"@,
        ),
        CatalogKind::ActiveIngredient => csv == crate::catalog::catalog_csv_of_text::<ActiveIngridientRecord>(
            xml,
            "principiosactivos"@,
        ),
        CatalogKind::RegistrationStatus => csv == crate::catalog::catalog_csv_of_text::<RegistrationStatusRecord>(
            xml,
            "situacionesregistro"@,
        ),
        CatalogKind::ContainerUnit => csv == crate::catalog::catalog_csv_of_text::<ContainerUnitRecord>(
            xml,
            "unidadescontenido"@,
        ),
        CatalogKind::AdministrationRoute => csv == crate::catalog::catalog_csv_of_text::<AdministrationRouteRecord>(
            xml,
            "viasadministracion"@,
        ),
    }
}

/// Converts one catalog XML text according to its kind: it succeeds exactly
/// when the text converts for that kind, and any returned table is that
/// text's table.
pub fn run_catalog_job(kind: CatalogKind, xml: &str) -> (r: Result<String, ConvertError>)
    ensures
        r is Ok <==> job_accepts(kind, xml@),
        r matches Ok(csv) ==> job_output_ok(kind, xml@, csv@),
{
    match kind {
        CatalogKind::Atc => crate::catalog::parse_atc_xml_to_csv(xml),
        CatalogKind::Dcp => crate::catalog::parse_dcp_xml_to_csv(xml),
        CatalogKind::Dcpf => crate::catalog::parse_dcpf_xml_to_csv(xml),
        CatalogKind::Dcsa => crate::catalog::parse_dcsa_xml_to_csv(xml),
        CatalogKind::Container => crate::catalog::parse_envases_xml_to_csv(xml),
        CatalogKind::Excipient => crate::catalog::parse_excipientes_xml_to_csv(xml),
        CatalogKind::PharmaceuticalForm => crate::catalog::parse_forma_farmaceutica_xml_to_csv(
            xml,
        ),
        CatalogKind::SimplifiedPharmaceuticalForm =>
            crate::catalog::parse_forma_farmaceutica_simplificada_xml_to_csv(xml),
        CatalogKind::Laboratory => crate::catalog::parse_laboratorio_xml_to_csv(xml),
        CatalogKind::ActiveIngredient => crate::catalog::parse_principio_activo_xml_to_csv(xml),
        CatalogKind::RegistrationStatus => crate::catalog::parse_situacion_registro_xml_to_csv(
            xml,
        ),
        CatalogKind::ContainerUnit => crate::catalog::parse_unidad_contenido_xml_to_csv(xml),
        CatalogKind::AdministrationRoute => crate::catalog::parse_via_administracion_xml_to_csv(
            xml,
        ),
    }
}

/// The thirteen catalog jobs, with the dump's file names and the CSV names
/// they are written to. The prescription file is not among them: it is
/// handled separately, after all catalog jobs.
pub fn catalog_jobs() -> (r: Vec<CatalogJob>)
    ensures
        r@.len() == 13,
        r@[0].kind == CatalogKind::Atc && r@[0].xml_name@ == "DICCIONARIO_ATC.xml"@
            && r@[0].csv_name@ == "atc.csv"@,
        r@[1].kind == CatalogKind::Dcp && r@[1].xml_name@ == "DICCIONARIO_DCP.xml"@
            && r@[1].csv_name@ == "dcp.csv"@,
        r@[2].kind == CatalogKind::Dcpf && r@[2].xml_name@ == "DICCIONARIO_DCPF.xml"@
            && r@[2].csv_name@ == "dcpf.csv"@,
        r@[3].kind == CatalogKind::Dcsa && r@[3].xml_name@ == "DICCIONARIO_DCSA.xml"@
            && r@[3].csv_name@ == "dcsa.csv"@,
        r@[4].kind == CatalogKind::Container && r@[4].xml_name@ == "DICCIONARIO_ENVASES.xml"@
            && r@[4].csv_name@ == "envases.csv"@,
        r@[5].kind == CatalogKind::Excipient && r@[5].xml_name@
            == "DICCIONARIO_EXCIPIENTES_DECL_OBLIGATORIA.xml"@ && r@[5].csv_name@
            == "excipientes.csv"@,
        r@[6].kind == CatalogKind::PharmaceuticalForm && r@[6].xml_name@
            == "DICCIONARIO_FORMA_FARMACEUTICA.xml"@ && r@[6].csv_name@
            == "forma_farmaceutica.csv"@,
        r@[7].kind == CatalogKind::SimplifiedPharmaceuticalForm && r@[7].xml_name@
            == "DICCIONARIO_FORMA_FARMACEUTICA_SIMPLIFICADAS.xml"@ && r@[7].csv_name@
            == "forma_farmaceutica_simplificada.csv"@,
        r@[8].kind == CatalogKind::Laboratory && r@[8].xml_name@
            == "DICCIONARIO_LABORATORIOS.xml"@ && r@[8].csv_name@ == "laboratorios.csv"@,
        r@[9].kind == CatalogKind::ActiveIngredient && r@[9].xml_name@
            == "DICCIONARIO_PRINCIPIOS_ACTIVOS.xml"@ && r@[9].csv_name@
            == "principios_activos.csv"@,
        r@[10].kind == CatalogKind::RegistrationStatus && r@[10].xml_name@
            == "DICCIONARIO_SITUACION_REGISTRO.xml"@ && r@[10].csv_name@
            == "situacion_registro.csv"@,
        r@[11].kind == CatalogKind::ContainerUnit && r@[11].xml_name@
            == "DICCIONARIO_UNIDAD_CONTENIDO.xml"@ && r@[11].csv_name@
            == "unidad_contenido.csv"@,
        r@[12].kind == CatalogKind::AdministrationRoute && r@[12].xml_name@
            == "DICCIONARIO_VIAS_ADMINISTRACION.xml"@ && r@[12].csv_name@
            == "vias_administracion.csv"@,
{
    let mut r: Vec<CatalogJob> = Vec::new();
    r.push(CatalogJob {
        kind: CatalogKind::Atc,
        xml_name: String::from_str("DICCIONARIO_ATC.xml"),
        csv_name: String::from_str("atc.csv"),
    });
    r.push(CatalogJob {
        kind: CatalogKind::Dcp,
        xml_name: String::from_str("DICCIONARIO_DCP.xml"),
        csv_name: String::from_str("dcp.csv"),
    });
    r.push(CatalogJob {
        kind: CatalogKind::Dcpf,
        xml_name: String::from_str("DICCIONARIO_DCPF.xml"),
        csv_name: String::from_str("dcpf.csv"),
    });
    r.push(CatalogJob {
        kind: CatalogKind::Dcsa,
        xml_name: String::from_str("DICCIONARIO_DCSA.xml"),
        csv_name: String::from_str("dcsa.csv"),
    });
    r.push(CatalogJob {
        kind: CatalogKind::Container,
        xml_name: String::from_str("DICCIONARIO_ENVASES.xml"),
        csv_name: String::from_str("envases.csv"),
    });
    r.push(CatalogJob {
        kind: CatalogKind::Excipient,
        xml_name: String::from_str("DICCIONARIO_EXCIPIENTES_DECL_OBLIGATORIA.xml"),
        csv_name: String::from_str("excipientes.csv"),
    });
    r.push(CatalogJob {
        kind: CatalogKind::PharmaceuticalForm,
        xml_name: String::from_str("DICCIONARIO_FORMA_FARMACEUTICA.xml"),
        csv_name: String::from_str("forma_farmaceutica.csv"),
    });
    r.push(CatalogJob {
        kind: CatalogKind::SimplifiedPharmaceuticalForm,
        xml_name: String::from_str("DICCIONARIO_FORMA_FARMACEUTICA_SIMPLIFICADAS.xml"),
        csv_name: String::from_str("forma_farmaceutica_simplificada.csv"),
    });
    r.push(CatalogJob {
        kind: CatalogKind::Laboratory,
        xml_name: String::from_str("DICCIONARIO_LABORATORIOS.xml"),
        csv_name: String::from_str("laboratorios.csv"),
    });
    r.push(CatalogJob {
        kind: CatalogKind::ActiveIngredient,
        xml_name: String::from_str("DICCIONARIO_PRINCIPIOS_ACTIVOS.xml"),
        csv_name: String::from_str("principios_activos.csv"),
    });
    r.push(CatalogJob {
        kind: CatalogKind::RegistrationStatus,
        xml_name: String::from_str("DICCIONARIO_SITUACION_REGISTRO.xml"),
        csv_name: String::from_str("situacion_registro.csv"),
    });
    r.push(CatalogJob {
        kind: CatalogKind::ContainerUnit,
        xml_name: String::from_str("DICCIONARIO_UNIDAD_CONTENIDO.xml"),
        csv_name: String::from_str("unidad_contenido.csv"),
    });
    r.push(CatalogJob {
        kind: CatalogKind::AdministrationRoute,
        xml_name: String::from_str("DICCIONARIO_VIAS_ADMINISTRACION.xml"),
        csv_name: String::from_str("vias_administracion.csv"),
    });
    r
}

/// The life of one catalog job.
#[derive(Debug, Clone, Copy, PartialEq, Eq, Structural)]
pub enum JobState {
    /// Not looked at yet.
    Pending,
    /// Admitted to the pool and parsing.
    Running,
    /// Its source file does not exist: not an error.
    Skipped,
    /// Parsed and written.
    Succeeded,
    /// Parsing or writing failed.
    Failed,
}

/// What the orchestrator observes of one job.
#[derive(Debug, Clone, Copy, PartialEq, Eq, Structural)]
pub enum JobEvent {
    /// The source file exists and the job was handed to a worker.
    Dispatched,
    /// The source file does not exist.
    FileAbsent,
    /// The worker finished, successfully or not.
    Finished(bool),
}

/// The transition table of one job: a pending job is skipped or dispatched,
/// a running job finishes; nothing else moves.
pub open spec fn job_step_spec(s: JobState, e: JobEvent) -> Option<JobState> {
    match (s, e) {
        (JobState::Pending, JobEvent::FileAbsent) => Some(JobState::Skipped),
        (JobState::Pending, JobEvent::Dispatched) => Some(JobState::Running),
        (JobState::Running, JobEvent::Finished(ok)) => Some(
            if ok {
                JobState::Succeeded
            } else {
                JobState::Failed
            },
        ),
        _ => None,
    }
}

/// Takes one job transition; `None` rejects an event the state cannot take.
pub fn job_step(s: JobState, e: JobEvent) -> (r: Option<JobState>)
    ensures
        r == job_step_spec(s, e),
{
    match (s, e) {
        (JobState::Pending, JobEvent::FileAbsent) => Some(JobState::Skipped),
        (JobState::Pending, JobEvent::Dispatched) => Some(JobState::Running),
        (JobState::Running, JobEvent::Finished(ok)) => Some(
            if ok {
                JobState::Succeeded
            } else {
                JobState::Failed
            },
        ),
        _ => None,
    }
}

/// How many jobs of a sequence ended in a given state.
pub open spec fn count_state(states: Seq<JobState>, target: JobState) -> nat
    decreases states.len(),
{
    if states.len() == 0 {
        0
    } else {
        count_state(states.drop_last(), target) + (if states.last() == target {
            1nat
        } else {
            0nat
        })
    }
}

/// The final report of one run.
#[derive(Debug, Clone, Copy, PartialEq, Eq, Structural)]
pub struct RunSummary {
    pub succeeded: usize,
    pub failed: usize,
    pub skipped: usize,
    pub prescription_ok: bool,
}

/// Counts the catalog outcomes and records the prescription outcome.
pub fn summarize(states: &Vec<JobState>, prescription_ok: bool) -> (r: RunSummary)
    requires
        states@.len() <= usize::MAX,
    ensures
        r.succeeded as nat == count_state(states@, JobState::Succeeded),
        r.failed as nat == count_state(states@, JobState::Failed),
        r.skipped as nat == count_state(states@, JobState::Skipped),
        r.prescription_ok == prescription_ok,
{
    let mut succeeded: usize = 0;
    let mut failed: usize = 0;
    let mut skipped: usize = 0;
    let mut i: usize = 0;
    proof {
        lemma_count_state_le(states@, JobState::Succeeded);
    }
    while i < states.len()
        invariant
            0 <= i <= states@.len(),
            succeeded as nat == count_state(states@.subrange(0, i as int), JobState::Succeeded),
            failed as nat == count_state(states@.subrange(0, i as int), JobState::Failed),
            skipped as nat == count_state(states@.subrange(0, i as int), JobState::Skipped),
            succeeded + failed + skipped <= i,
        decreases states.len() - i,
    {
        proof {
            lemma_count_state_snoc(states@, JobState::Succeeded, i as int);
            lemma_count_state_snoc(states@, JobState::Failed, i as int);
            lemma_count_state_snoc(states@, JobState::Skipped, i as int);
        }
        match states[i] {
            JobState::Succeeded => {
                succeeded = succeeded + 1;
            },
            JobState::Failed => {
                failed = failed + 1;
            },
            JobState::Skipped => {
                skipped = skipped + 1;
            },
            _ => {},
        }
        i = i + 1;
    }
    assert(states@.subrange(0, states@.len() as int) =~= states@);
    RunSummary { succeeded, failed, skipped, prescription_ok }
}

/// Counting one more state adds one exactly when it is the target.
proof fn lemma_count_state_snoc(states: Seq<JobState>, target: JobState, i: int)
    requires
        0 <= i < states.len(),
    ensures
        count_state(states.subrange(0, i + 1), target) == count_state(states.subrange(0, i), target)
            + (if states[i] == target {
            1nat
        } else {
            0nat
        }),
{
    let ext = states.subrange(0, i + 1);
    assert(ext.drop_last() =~= states.subrange(0, i));
    assert(ext.last() == states[i]);
}

/// A count never exceeds the length.
proof fn lemma_count_state_le(states: Seq<JobState>, target: JobState)
    ensures
        count_state(states, target) <= states.len(),
    decreases states.len(),
{
    if states.len() > 0 {
        lemma_count_state_le(states.drop_last(), target);
    }
}

/// Whether a whole run counts as a success: no catalog job failed and the
/// prescription step succeeded. Skipped files do not count as failures.
pub open spec fn run_succeeded(summary: RunSummary) -> bool {
    summary.failed == 0 && summary.prescription_ok
}

/// Reports whether the run as a whole succeeded.
pub fn overall_success(summary: &RunSummary) -> (r: bool)
    ensures
        r == run_succeeded(*summary),
{
    summary.failed == 0 && summary.prescription_ok
}

/// Skips are not failures: a run in which every catalog job either succeeded
/// or was skipped — however many were skipped — and whose prescription step
/// succeeded, succeeds as a whole.
pub proof fn lemma_skips_are_not_failures(states: Seq<JobState>, summary: RunSummary)
    requires
        forall|i: int|
            0 <= i < states.len() ==> states[i] == JobState::Succeeded || states[i]
                == JobState::Skipped,
        summary.failed as nat == count_state(states, JobState::Failed),
        summary.prescription_ok,
    ensures
        run_succeeded(summary),
    decreases states.len(),
{
    if states.len() > 0 {
        let front = states.drop_last();
        assert(forall|i: int|
            0 <= i < front.len() ==> front[i] == JobState::Succeeded || front[i]
                == JobState::Skipped);
        lemma_count_state_zero_when_absent(front, JobState::Failed);
        assert(states.last() != JobState::Failed);
    } else {
        assert(count_state(states, JobState::Failed) == 0);
    }
}

/// A state that never occurs counts zero.
proof fn lemma_count_state_zero_when_absent(states: Seq<JobState>, target: JobState)
    requires
        forall|i: int| 0 <= i < states.len() ==> states[i] != target,
    ensures
        count_state(states, target) == 0,
    decreases states.len(),
{
    if states.len() > 0 {
        lemma_count_state_zero_when_absent(states.drop_last(), target);
    }
}

/// The bounded worker pool that admits catalog jobs: at most `capacity` jobs
/// run at once.
pub struct WorkerPool {
    pub capacity: usize,
    pub running: usize,
}

/// A pool is well formed when it never runs more jobs than its capacity.
pub open spec fn pool_wf(p: WorkerPool) -> bool {
    p.running <= p.capacity
}

impl WorkerPool {
    /// A fresh pool with nothing running.
    pub fn new(capacity: usize) -> (r: WorkerPool)
        ensures
            pool_wf(r),
            r.capacity == capacity,
            r.running == 0,
    {
        WorkerPool { capacity, running: 0 }
    }

    /// Admits one job when a slot is free: the count grows only below the
    /// capacity, so no more than `capacity` jobs ever run at once.
    pub fn try_acquire(&mut self) -> (admitted: bool)
        requires
            pool_wf(*old(self)),
        ensures
            pool_wf(*final(self)),
            final(self).capacity == old(self).capacity,
            admitted == (old(self).running < old(self).capacity),
            final(self).running == if admitted {
                old(self).running + 1
            } else {
                old(self).running as int
            },
    {
        if self.running < self.capacity {
            self.running = self.running + 1;
            true
        } else {
            false
        }
    }

    /// Returns one slot when a job finishes.
    pub fn release(&mut self)
        requires
            pool_wf(*old(self)),
            old(self).running > 0,
        ensures
            pool_wf(*final(self)),
            final(self).capacity == old(self).capacity,
            final(self).running == old(self).running - 1,
    {
        self.running = self.running - 1;
    }
}

/// One observation of the pool from outside.
#[derive(Debug, Clone, Copy, PartialEq, Eq, Structural)]
pub enum PoolEvent {
    /// A job asked for a slot (and was admitted only if one was free).
    Acquire,
    /// A running job finished and returned its slot.
    Release,
}

/// How many jobs run after a fresh pool of the given capacity has processed
/// a sequence of events.
pub open spec fn running_after(capacity: nat, events: Seq<PoolEvent>) -> nat
    decreases events.len(),
{
    if events.len() == 0 {
        0
    } else {
        let prev = running_after(capacity, events.drop_last());
        match events.last() {
            PoolEvent::Acquire => if prev < capacity {
                prev + 1
            } else {
                prev
            },
            PoolEvent::Release => if prev > 0 {
                (prev - 1) as nat
            } else {
                0
            },
        }
    }
}

/// The concurrency bound: however the orchestrator interleaves admissions
/// and completions, the number of jobs running at once never exceeds the
/// pool's capacity.
pub proof fn lemma_pool_bounded(capacity: nat, events: Seq<PoolEvent>)
    ensures
        running_after(capacity, events) <= capacity,
    decreases events.len(),
{
    if events.len() > 0 {
        lemma_pool_bounded(capacity, events.drop_last());
    }
}

} // verus!
