//! Jobs, and the career built from them.

use crate::amount::Amount;
use vstd::prelude::*;

verus! {

/// The seniority of a job.
#[derive(Debug, Clone, Copy, PartialEq, Eq, Structural)]
pub enum JobLevel {
    /// From no experience.
    Entry,
    /// From two years of experience.
    Junior,
    /// From four years of experience.
    Mid,
    /// From seven years of experience.
    Senior,
    /// From ten years of experience.
    Lead,
}

impl JobLevel {
    /// The place of the level in the order of seniority, from 0 for entry to 4 for lead.
    pub open spec fn rank(self) -> int {
        match self {
            JobLevel::Entry => 0,
            JobLevel::Junior => 1,
            JobLevel::Mid => 2,
            JobLevel::Senior => 3,
            JobLevel::Lead => 4,
        }
    }

    /// The years of experience that the level asks for.
    pub open spec fn threshold(self) -> int {
        match self {
            JobLevel::Entry => 0,
            JobLevel::Junior => 2,
            JobLevel::Mid => 4,
            JobLevel::Senior => 7,
            JobLevel::Lead => 10,
        }
    }

    /// The name of the level as it is shown.
    pub open spec fn title(self) -> Seq<char> {
        match self {
            JobLevel::Entry => "Entry Level"@,
            JobLevel::Junior => "Junior"@,
            JobLevel::Mid => "Mid-Level"@,
            JobLevel::Senior => "Senior"@,
            JobLevel::Lead => "Lead"@,
        }
    }

    /// The highest level whose threshold the years of experience reach.
    pub open spec fn highest_for(years: int) -> JobLevel {
        if years >= 10 {
            JobLevel::Lead
        } else if years >= 7 {
            JobLevel::Senior
        } else if years >= 4 {
            JobLevel::Mid
        } else if years >= 2 {
            JobLevel::Junior
        } else {
            JobLevel::Entry
        }
    }

    /// The place of the level in the order of seniority, from 0 for entry to 4 for lead.
    pub fn ordinal(&self) -> (r: u8)
        ensures
            r == self.rank(),
    {
        match self {
            JobLevel::Entry => 0,
            JobLevel::Junior => 1,
            JobLevel::Mid => 2,
            JobLevel::Senior => 3,
            JobLevel::Lead => 4,
        }
    }

    /// The years of experience that the level asks for.
    pub fn min_experience(&self) -> (r: u8)
        ensures
            r == self.threshold(),
    {
        match self {
            JobLevel::Entry => 0,
            JobLevel::Junior => 2,
            JobLevel::Mid => 4,
            JobLevel::Senior => 7,
            JobLevel::Lead => 10,
        }
    }

    /// The name of the level as it is shown.
    pub fn name(&self) -> (r: &'static str)
        ensures
            r@ == self.title(),
    {
        match self {
            JobLevel::Entry => "Entry Level",
            JobLevel::Junior => "Junior",
            JobLevel::Mid => "Mid-Level",
            JobLevel::Senior => "Senior",
            JobLevel::Lead => "Lead",
        }
    }

    /// All levels, from entry to lead.
    pub fn all() -> (r: Vec<JobLevel>)
        ensures
            r@ == seq![
                JobLevel::Entry,
                JobLevel::Junior,
                JobLevel::Mid,
                JobLevel::Senior,
                JobLevel::Lead,
            ],
    {
        let mut levels: Vec<JobLevel> = Vec::new();
        levels.push(JobLevel::Entry);
        levels.push(JobLevel::Junior);
        levels.push(JobLevel::Mid);
        levels.push(JobLevel::Senior);
        levels.push(JobLevel::Lead);
        assert(levels@ =~= seq![
            JobLevel::Entry,
            JobLevel::Junior,
            JobLevel::Mid,
            JobLevel::Senior,
            JobLevel::Lead,
        ]);
        levels
    }
}

/// The field of work of a job.
#[derive(Debug, Clone, PartialEq, Eq, Hash)]
pub enum CareerField {
    Technology,
    Finance,
    Healthcare,
    Education,
    Retail,
    Manufacturing,
    /// A field outside the list, by its name.
    Other(String),
}

impl CareerField {
    /// The name of the field as it is shown.
    pub open spec fn title(self) -> Seq<char> {
        match self {
            CareerField::Technology => "Technology"@,
            CareerField::Finance => "Finance"@,
            CareerField::Healthcare => "Healthcare"@,
            CareerField::Education => "Education"@,
            CareerField::Retail => "Retail"@,
            CareerField::Manufacturing => "Manufacturing"@,
            CareerField::Other(name) => name@,
        }
    }

    /// The name of the field as it is shown.
    pub fn name(&self) -> (r: String)
        ensures
            r@ == self.title(),
    {
        match self {
            CareerField::Technology => "Technology".to_string(),
            CareerField::Finance => "Finance".to_string(),
            CareerField::Healthcare => "Healthcare".to_string(),
            CareerField::Education => "Education".to_string(),
            CareerField::Retail => "Retail".to_string(),
            CareerField::Manufacturing => "Manufacturing".to_string(),
            CareerField::Other(name) => name.clone(),
        }
    }

    /// The fields that a player can choose from.
    pub fn available_fields() -> (r: Vec<CareerField>)
        ensures
            r@ == seq![
                CareerField::Technology,
                CareerField::Finance,
                CareerField::Healthcare,
                CareerField::Education,
                CareerField::Retail,
                CareerField::Manufacturing,
            ],
    {
        let mut fields: Vec<CareerField> = Vec::new();
        fields.push(CareerField::Technology);
        fields.push(CareerField::Finance);
        fields.push(CareerField::Healthcare);
        fields.push(CareerField::Education);
        fields.push(CareerField::Retail);
        fields.push(CareerField::Manufacturing);
        assert(fields@ =~= seq![
            CareerField::Technology,
            CareerField::Finance,
            CareerField::Healthcare,
            CareerField::Education,
            CareerField::Retail,
            CareerField::Manufacturing,
        ]);
        fields
    }
}

/// A job, held or on offer.
#[derive(Debug, Clone, PartialEq)]
pub struct Job {
    /// The identifier of the job.
    pub id: String,
    /// The title of the job.
    pub title: String,
    /// The field of work.
    pub field: CareerField,
    /// The seniority.
    pub level: JobLevel,
    /// The monthly salary before tax.
    pub monthly_salary: Amount,
    /// The years of experience the job asks for.
    pub required_experience: u8,
    /// The employer, where one is named.
    pub company: Option<String>,
}

impl Job {
    /// A job that asks for the experience of its level.
    pub fn new(
        id: String,
        title: String,
        field: CareerField,
        level: JobLevel,
        monthly_salary: Amount,
        company: Option<String>,
    ) -> (r: Job)
        ensures
            r.id == id,
            r.title == title,
            r.field == field,
            r.level == level,
            r.monthly_salary == monthly_salary,
            r.required_experience == level.threshold(),
            r.company == company,
    {
        Job {
            id,
            title,
            field,
            required_experience: level.min_experience(),
            level,
            monthly_salary,
            company,
        }
    }

    /// Whether the years of experience are enough for the job.
    pub fn qualifies(&self, years_experience: u8) -> (r: bool)
        ensures
            r == (years_experience >= self.required_experience),
    {
        years_experience >= self.required_experience
    }

    /// The name of the job's level as it is shown.
    pub fn level_name(&self) -> (r: &'static str)
        ensures
            r@ == self.level.title(),
    {
        self.level.name()
    }
}

/// A player's career: the job held, the experience gained, and the jobs left behind.
#[derive(Debug, Clone, PartialEq)]
pub struct Career {
    /// The job held, if any.
    pub current_job: Option<Job>,
    /// The years of work experience.
    pub years_experience: u8,
    /// The months spent in the current job.
    pub months_in_current_job: u8,
    /// The jobs left behind, oldest first.
    pub job_history: Vec<Job>,
}

impl Career {
    /// The history after the current job, if any, is left behind.
    pub open spec fn history_after_leaving(self) -> Seq<Job> {
        if self.current_job is Some {
            self.job_history@.push(self.current_job->Some_0)
        } else {
            self.job_history@
        }
    }

    /// Whether the career can advance by a month without a counter running over.
    pub open spec fn can_advance(self) -> bool {
        self.current_job is Some ==> {
            &&& self.months_in_current_job < u8::MAX
            &&& (self.months_in_current_job + 1) % 12 == 0 ==> self.years_experience < u8::MAX
        }
    }

    /// The months in the current job after a month has passed.
    pub open spec fn months_after_advance(self) -> int {
        if self.current_job is Some {
            self.months_in_current_job + 1
        } else {
            self.months_in_current_job as int
        }
    }

    /// The years of experience after a month has passed: one more with every
    /// twelfth month in a job.
    pub open spec fn years_after_advance(self) -> int {
        if self.current_job is Some && (self.months_in_current_job + 1) % 12 == 0 {
            self.years_experience + 1
        } else {
            self.years_experience as int
        }
    }

    /// A career without a job, experience or history.
    pub fn new() -> (r: Career)
        ensures
            r.current_job is None,
            r.years_experience == 0,
            r.months_in_current_job == 0,
            r.job_history@.len() == 0,
    {
        Career {
            current_job: None,
            years_experience: 0,
            months_in_current_job: 0,
            job_history: Vec::new(),
        }
    }

    /// Takes a job. The job held before, if any, goes to the end of the history.
    pub fn accept_job(&mut self, job: Job)
        ensures
            final(self).current_job == Some(job),
            final(self).months_in_current_job == 0,
            final(self).job_history@ == old(self).history_after_leaving(),
            final(self).years_experience == old(self).years_experience,
    {
        if let Some(current) = self.current_job.take() {
            self.job_history.push(current);
        }
        self.current_job = Some(job);
        self.months_in_current_job = 0;
    }

    /// Leaves the job held, if any, which goes to the end of the history.
    pub fn quit_job(&mut self)
        ensures
            final(self).current_job is None,
            final(self).months_in_current_job == 0,
            final(self).job_history@ == old(self).history_after_leaving(),
            final(self).years_experience == old(self).years_experience,
    {
        if let Some(job) = self.current_job.take() {
            self.job_history.push(job);
        }
        self.months_in_current_job = 0;
    }

    /// Lets a month pass: in a job, the months in it grow by one, and with
    /// every twelfth the years of experience.
    pub fn advance_month(&mut self)
        requires
            old(self).can_advance(),
        ensures
            final(self).months_in_current_job == old(self).months_after_advance(),
            final(self).years_experience == old(self).years_after_advance(),
            final(self).current_job == old(self).current_job,
            final(self).job_history == old(self).job_history,
    {
        if self.current_job.is_some() {
            self.months_in_current_job += 1;
            if self.months_in_current_job % 12 == 0 {
                self.years_experience += 1;
            }
        }
    }

    /// Whether the career can advance by a month without a counter running over.
    pub fn can_advance_month(&self) -> (r: bool)
        ensures
            r == self.can_advance(),
    {
        if self.current_job.is_some() {
            self.months_in_current_job < u8::MAX && ((self.months_in_current_job + 1) % 12 != 0
                || self.years_experience < u8::MAX)
        } else {
            true
        }
    }

    /// Whether a job is held.
    pub fn is_employed(&self) -> (r: bool)
        ensures
            r == (self.current_job is Some),
    {
        self.current_job.is_some()
    }

    /// The monthly salary of the job held, and nothing without a job.
    pub fn monthly_salary(&self) -> (r: Amount)
        ensures
            self.current_job is Some ==> r == self.current_job->Some_0.monthly_salary,
            self.current_job is None ==> r == Amount::whole(0) && r@ == 0,
    {
        match &self.current_job {
            Some(job) => job.monthly_salary,
            None => Amount::zero(),
        }
    }

    /// The highest level that the years of experience reach.
    pub fn max_qualified_level(&self) -> (r: JobLevel)
        ensures
            r == JobLevel::highest_for(self.years_experience as int),
            r.threshold() <= self.years_experience,
            forall|l: JobLevel| l.threshold() <= self.years_experience ==> l.rank() <= r.rank(),
    {
        let levels = JobLevel::all();
        let mut i: usize = levels.len();
        while i > 0
            invariant
                i <= 5,
                levels@ == seq![
                    JobLevel::Entry,
                    JobLevel::Junior,
                    JobLevel::Mid,
                    JobLevel::Senior,
                    JobLevel::Lead,
                ],
                forall|k: int| i <= k < 5 ==> self.years_experience < levels@[k].threshold(),
            decreases i,
        {
            i = i - 1;
            let level = levels[i];
            if self.years_experience >= level.min_experience() {
                return level;
            }
        }
        JobLevel::Entry
    }
}

impl Default for Career {
    /// A career without a job, experience or history.
    fn default() -> (r: Career)
        ensures
            r.current_job is None,
            r.years_experience == 0,
            r.months_in_current_job == 0,
            r.job_history@.len() == 0,
    {
        Career::new()
    }
}

} // verus!
