use vstd::prelude::*;
use crate::database_connection::pool_config::{TracedManager, parse_config, new_manager, postgres_config_accepts};

verus! {

/// The schema script up to the role that is granted access.
pub const SCHEMA_HEAD: &'static str = "
            DROP SCHEMA public CASCADE;
            CREATE SCHEMA public;
            GRANT ALL ON SCHEMA public TO ";

/// The schema script after the role.
pub const SCHEMA_TAIL: &'static str = ", public;

            CREATE TABLE regions (
                r_region_id int PRIMARY KEY,
                r_coord_x smallint,
                r_coord_y smallint
            );

            CREATE INDEX idx_r_region_id ON regions(r_region_id);

            CREATE TABLE timepoints (
                t_timepoint_id smallint PRIMARY KEY,
                t_year smallint,
                t_month smallint
            );

            CREATE INDEX idx_t_timepoint_id ON timepoints(t_timepoint_id);

            CREATE TABLE countries (
                c_iso_a3 char(3) PRIMARY KEY,
                c_name varchar(128),
                c_center_x smallint,
                c_center_y smallint
            );

            CREATE INDEX idx_c_iso_a3 ON countries(c_iso_a3);

            CREATE TABLE region_in_country (
                ric_region_id int,
                ric_iso_a3 char(3),
                PRIMARY KEY (ric_region_id, ric_iso_a3),
                CONSTRAINT fk_region FOREIGN KEY(ric_region_id) REFERENCES regions(r_region_id),
                CONSTRAINT fk_country FOREIGN KEY(ric_iso_a3) REFERENCES countries(c_iso_a3)
            );

            CREATE INDEX idx_ric ON region_in_country(ric_region_id, ric_iso_a3);

            CREATE UNLOGGED TABLE weatherpoints (
                wp_region_id int,
                wp_timepoint_id smallint,
                wp_prec smallint,
                wp_tmin smallint,
                wp_tmax smallint,
                PRIMARY KEY (wp_region_id, wp_timepoint_id),
                CONSTRAINT fk_region FOREIGN KEY(wp_region_id) REFERENCES regions(r_region_id),
                CONSTRAINT fk_timepoint FOREIGN KEY(wp_timepoint_id) REFERENCES timepoints(t_timepoint_id)
            );

            CREATE INDEX idx_wp ON weatherpoints(wp_region_id, wp_timepoint_id);
        ";

/// The start of the statement that inserts rows into the regions table.
pub const REGIONS_INSERT_HEAD: &'static str = "
            INSERT INTO regions VALUES ";

/// The start of the statement that inserts rows into the timepoints table.
pub const TIMEPOINTS_INSERT_HEAD: &'static str = "
            INSERT INTO timepoints VALUES ";

/// The start of the statement that inserts rows into the weatherpoints table.
pub const WEATHERPOINTS_INSERT_HEAD: &'static str = "
            INSERT INTO weatherpoints VALUES ";

/// The end of each row-inserting statement.
pub const INSERT_TAIL: &'static str = ";
        ";

/// The statement that inserts a country.
pub const COUNTRY_INSERT: &'static str = "
            INSERT INTO countries VALUES ($1, $2, $3, $4);
        ";

/// The statement that places a region in a country.
pub const REGION_IN_COUNTRY_INSERT: &'static str = "
                INSERT INTO region_in_country VALUES ($1, $2);
            ";

/// The most connections that the pool keeps.
pub const POOL_MAX_SIZE: u32 = 20;

/// The fewest idle connections that the pool keeps.
pub const POOL_MIN_IDLE: u32 = 1;

/// The connection string for a server, a database, and a user.
pub open spec fn connection_url_spec(
    ip: Seq<char>,
    port: Seq<char>,
    name: Seq<char>,
    user: Seq<char>,
    pass: Seq<char>,
) -> Seq<char> {
    "postgresql://"@ + user + ":"@ + pass + "@"@ + ip + ":"@ + port + "/"@ + name
}

pub fn connection_url(ip: &str, port: &str, name: &str, user: &str, pass: &str) -> (url: String)
    ensures
        url@ == connection_url_spec(ip@, port@, name@, user@, pass@),
{
    let mut url = "postgresql://".to_owned();
    url.append(user);
    url.append(":");
    url.append(pass);
    url.append("@");
    url.append(ip);
    url.append(":");
    url.append(port);
    url.append("/");
    url.append(name);
    url
}

/// The items, with `sep` between each two.
pub open spec fn join_spec(items: Seq<Seq<char>>, sep: Seq<char>) -> Seq<char>
    decreases items.len(),
{
    if items.len() == 0 {
        Seq::empty()
    } else if items.len() == 1 {
        items[0]
    } else {
        join_spec(items.drop_last(), sep) + sep + items.last()
    }
}

pub open spec fn strings_view(items: Seq<String>) -> Seq<Seq<char>> {
    items.map_values(|s: String| s@)
}

/// Joins `items` with `sep` between each two.
pub fn join_strings(items: &[String], sep: &str) -> (r: String)
    ensures
        r@ == join_spec(strings_view(items@), sep@),
{
    let mut r = String::new();
    let mut i: usize = 0;
    while i < items.len()
        invariant
            i <= items@.len(),
            r@ == join_spec(strings_view(items@).take(i as int), sep@),
        decreases items@.len() - i,
    {
        let ghost v = strings_view(items@);
        assert(v.take(i + 1).drop_last() =~= v.take(i as int));
        assert(v.take(i + 1).last() == items@[i as int]@);
        if i > 0 {
            r.append(sep);
        } else {
            assert(v.take(0) =~= Seq::<Seq<char>>::empty());
        }
        r.append(items[i].as_str());
        i = i + 1;
    }
    assert(strings_view(items@).take(items@.len() as int) =~= strings_view(items@));
    r
}

/// A statement that inserts the rows `values` after `head`.
pub open spec fn insert_statement_spec(head: Seq<char>, values: Seq<String>, tail: Seq<char>) -> Seq<
    char,
> {
    head + join_spec(strings_view(values), ","@) + tail
}

pub fn insert_statement(head: &str, values: &[String], tail: &str) -> (r: String)
    ensures
        r@ == insert_statement_spec(head@, values@, tail@),
{
    let mut r = head.to_owned();
    let joined = join_strings(values, ",");
    r.append(joined.as_str());
    r.append(tail);
    r
}

/// What the insertion of a country asks for next.
pub enum InsertStep {
    /// Execute the statement that inserts the country.
    InsertCountry,
    /// Execute the statement that places this region in the country.
    InsertRegion(u32),
    /// The insertion is over; whether it succeeded.
    Done(bool),
}

pub struct CountryInsertModel {
    pub regions: Seq<u32>,
    pub signed_regions: bool,
    pub next: usize,
    pub finished: bool,
}

/// The insertion of a country and of its regions, one statement at a time.
pub struct CountryInsert<'a> {
    regions: &'a [u32],
    signed_regions: bool,
    next: usize,
    finished: bool,
}

impl<'a> View for CountryInsert<'a> {
    type V = CountryInsertModel;

    closed spec fn view(&self) -> CountryInsertModel {
        CountryInsertModel {
            regions: self.regions@,
            signed_regions: self.signed_regions,
            next: self.next,
            finished: self.finished,
        }
    }
}

/// After a statement affected `rows` rows (`None` where it failed): a
/// statement that did not affect exactly one row ends the insertion as a
/// failure; else the next region is placed, unless it does not fit a signed
/// 32-bit column where one is needed, which ends the insertion as a failure;
/// with no region left the insertion has succeeded.
pub open spec fn insert_step_spec(m: CountryInsertModel, rows: Option<u64>) -> (
    CountryInsertModel,
    InsertStep,
) {
    if rows != Some(1u64) {
        (CountryInsertModel { finished: true, ..m }, InsertStep::Done(false))
    } else if m.next >= m.regions.len() {
        (CountryInsertModel { finished: true, ..m }, InsertStep::Done(true))
    } else if m.signed_regions && m.regions[m.next as int] > i32::MAX {
        (CountryInsertModel { finished: true, ..m }, InsertStep::Done(false))
    } else {
        (
            CountryInsertModel { next: (m.next + 1) as usize, ..m },
            InsertStep::InsertRegion(m.regions[m.next as int]),
        )
    }
}

/// Whether every region still to be placed fits its column.
pub open spec fn remaining_regions_fit(m: CountryInsertModel) -> bool {
    m.signed_regions ==> forall|i: int|
        m.next <= i < m.regions.len() ==> #[trigger] m.regions[i] <= i32::MAX
}

/// A statement that fails, or that does not affect exactly one row, ends the
/// insertion as a failure.
pub proof fn failed_statement_ends_insertion(m: CountryInsertModel, rows: Option<u64>)
    requires
        rows != Some(1u64),
    ensures
        insert_step_spec(m, rows).1 == InsertStep::Done(false),
        insert_step_spec(m, rows).0.finished,
{
}

/// While every statement affects one row, the regions are placed once each,
/// in their order, and the insertion ends in success exactly when every
/// region fits its column.
pub proof fn insertion_outcome_follows_regions(m: CountryInsertModel)
    requires
        !m.finished,
        m.next <= m.regions.len() <= usize::MAX,
    ensures
        insert_step_spec(m, Some(1u64)).1 matches InsertStep::Done(ok) ==> ok
            == remaining_regions_fit(m),
        insert_step_spec(m, Some(1u64)).1 matches InsertStep::InsertRegion(r) ==> {
            &&& r == m.regions[m.next as int]
            &&& insert_step_spec(m, Some(1u64)).0.next == m.next + 1
            &&& remaining_regions_fit(insert_step_spec(m, Some(1u64)).0) == remaining_regions_fit(
                m,
            )
        },
{
    let o = insert_step_spec(m, Some(1u64));
    if o.1 is InsertRegion {
        if m.signed_regions && remaining_regions_fit(o.0) {
            assert forall|i: int| m.next <= i < m.regions.len() implies #[trigger] m.regions[i]
                <= i32::MAX by {
                if i > m.next {
                    assert(o.0.regions[i] <= i32::MAX);
                }
            }
        }
    }
}

impl<'a> CountryInsert<'a> {
    /// Begins the insertion of a country placed in `regions`; where
    /// `signed_regions`, each region goes into a signed 32-bit column.
    pub fn new(regions: &'a [u32], signed_regions: bool) -> (r: (Self, InsertStep))
        ensures
            r.0@ == (CountryInsertModel {
                regions: regions@,
                signed_regions,
                next: 0,
                finished: false,
            }),
            r.1 == InsertStep::InsertCountry,
    {
        (CountryInsert { regions, signed_regions, next: 0, finished: false }, InsertStep::InsertCountry)
    }

    /// An insertion that is over before it began, as a failure: there is
    /// nothing to insert with.
    pub fn refused(regions: &'a [u32], signed_regions: bool) -> (r: (Self, InsertStep))
        ensures
            r.0@ == (CountryInsertModel {
                regions: regions@,
                signed_regions,
                next: 0,
                finished: true,
            }),
            r.1 == InsertStep::Done(false),
    {
        (CountryInsert { regions, signed_regions, next: 0, finished: true }, InsertStep::Done(false))
    }

    /// Whether the insertion is over.
    pub fn is_finished(&self) -> (r: bool)
        ensures
            r == self@.finished,
    {
        self.finished
    }

    /// Takes the outcome of the last statement and says what comes next.
    pub fn on_result(&mut self, rows: Option<u64>) -> (step: InsertStep)
        requires
            !old(self)@.finished,
            old(self)@.next <= old(self)@.regions.len(),
        ensures
            final(self)@ == insert_step_spec(old(self)@, rows).0,
            step == insert_step_spec(old(self)@, rows).1,
            final(self)@.next <= final(self)@.regions.len(),
    {
        if rows != Some(1u64) {
            self.finished = true;
            return InsertStep::Done(false);
        }
        if self.next >= self.regions.len() {
            self.finished = true;
            return InsertStep::Done(true);
        }
        let region: u32 = self.regions[self.next];
        if self.signed_regions && region > 0x7fff_ffff {
            self.finished = true;
            return InsertStep::Done(false);
        }
        self.next = self.next + 1;
        InsertStep::InsertRegion(region)
    }
}

/// A pool of connections to the weather database (the pool type is the
/// caller's), and the role that the schema grants access to.
pub struct PGConnection<P> {
    pub pool: Option<P>,
    role: String,
}

pub struct PGConnectionModel<P> {
    pub pool: Option<P>,
    pub role: Seq<char>,
}

impl<P> PGConnectionModel<P> {
    pub open spec fn connected(self) -> bool {
        self.pool is Some
    }
}

impl<P> View for PGConnection<P> {
    type V = PGConnectionModel<P>;

    closed spec fn view(&self) -> PGConnectionModel<P> {
        PGConnectionModel { pool: self.pool, role: self.role@ }
    }
}

/// The script that creates the schema and grants `role` access to it.
pub open spec fn schema_script_spec(role: Seq<char>) -> Seq<char> {
    SCHEMA_HEAD@ + role + SCHEMA_TAIL@
}

impl<P> PGConnection<P> {
    pub fn new() -> (c: Self)
        ensures
            c@.pool is None,
            c@.role == Seq::<char>::empty(),
    {
        PGConnection { pool: None, role: String::new() }
    }

    pub fn connected(&self) -> (r: bool)
        ensures
            r == self@.connected(),
    {
        self.pool.is_some()
    }

    /// The number of connections in the pool, as `connections_of` counts
    /// them; 0 where there is no pool.
    pub fn max_connections<F: Fn(&P) -> u32>(&self, connections_of: F) -> (n: u32)
        requires
            self@.pool matches Some(p) ==> call_requires(connections_of, (&p,)),
        ensures
            self@.pool is None ==> n == 0,
            self@.pool matches Some(p) ==> call_ensures(connections_of, (&p,), n),
    {
        match &self.pool {
            Some(p) => connections_of(p),
            None => 0,
        }
    }

    /// Takes `user` as the role, and prepares a connection manager for the
    /// connection string of these parameters; `None` where the string is not
    /// accepted. The pool is left as it was.
    pub fn prepare_connection(
        &mut self,
        ip: &str,
        port: &str,
        name: &str,
        user: &str,
        pass: &str,
    ) -> (manager: Option<TracedManager>)
        ensures
            final(self)@.role == user@,
            final(self)@.pool == old(self)@.pool,
            manager is Some == postgres_config_accepts(
                connection_url_spec(ip@, port@, name@, user@, pass@),
            ),
            manager matches Some(m) ==> m.source() == connection_url_spec(
                ip@,
                port@,
                name@,
                user@,
                pass@,
            ),
    {
        self.role = user.to_owned();
        let url = connection_url(ip, port, name, user, pass);
        match parse_config(url.as_str()) {
            Some(config) => Some(new_manager(config)),
            None => None,
        }
    }

    /// Keeps the pool that was built, if one was: then the connection stands.
    pub fn attach_pool(&mut self, built: Option<P>) -> (r: bool)
        ensures
            r == built is Some,
            final(self)@.role == old(self)@.role,
            final(self)@.pool == (match built {
                Some(p) => Some(p),
                None => old(self)@.pool,
            }),
    {
        match built {
            Some(pool) => {
                self.pool = Some(pool);
                true
            },
            None => false,
        }
    }

    /// The script that creates the schema, with access for this role.
    pub fn init_script(&self) -> (s: String)
        ensures
            s@ == schema_script_spec(self@.role),
    {
        let mut s = SCHEMA_HEAD.to_owned();
        s.append(self.role.as_str());
        s.append(SCHEMA_TAIL);
        s
    }

    /// The statement that inserts `regions`, each the text of a row.
    pub fn regions_insert(regions: &[String]) -> (s: String)
        ensures
            s@ == insert_statement_spec(REGIONS_INSERT_HEAD@, regions@, INSERT_TAIL@),
    {
        insert_statement(REGIONS_INSERT_HEAD, regions, INSERT_TAIL)
    }

    /// The statement that inserts `timepoints`, each the text of a row.
    pub fn timepoints_insert(timepoints: &[String]) -> (s: String)
        ensures
            s@ == insert_statement_spec(TIMEPOINTS_INSERT_HEAD@, timepoints@, INSERT_TAIL@),
    {
        insert_statement(TIMEPOINTS_INSERT_HEAD, timepoints, INSERT_TAIL)
    }

    /// The statement that inserts `weatherpoints`, each the text of a row.
    pub fn weatherpoints_insert(weatherpoints: &[String]) -> (s: String)
        ensures
            s@ == insert_statement_spec(WEATHERPOINTS_INSERT_HEAD@, weatherpoints@, INSERT_TAIL@),
    {
        insert_statement(WEATHERPOINTS_INSERT_HEAD, weatherpoints, INSERT_TAIL)
    }

    /// Begins the insertion of a country in `regions`; each region goes
    /// into a signed 32-bit column. Without a pool it fails at once, and no
    /// statement is asked for.
    pub fn insert_country<'a>(&self, regions: &'a [u32]) -> (r: (CountryInsert<'a>, InsertStep))
        ensures
            r.0@ == (CountryInsertModel {
                regions: regions@,
                signed_regions: true,
                next: 0,
                finished: !self@.connected(),
            }),
            r.1 == (if self@.connected() {
                InsertStep::InsertCountry
            } else {
                InsertStep::Done(false)
            }),
    {
        if self.pool.is_some() {
            CountryInsert::new(regions, true)
        } else {
            CountryInsert::refused(regions, true)
        }
    }
}

} // verus!
