use vstd::prelude::*;
use postgres::Client;
use crate::database_connection::connection::{
    connection_url, connection_url_spec, insert_statement, insert_statement_spec, CountryInsert,
    CountryInsertModel, InsertStep,
};

verus! {

/// The schema script up to the role that is granted access.
pub const SCHEMA_HEAD: &'static str = "
            DROP SCHEMA public CASCADE;
            CREATE SCHEMA public;
            GRANT ALL ON SCHEMA public TO ";

/// The schema script after the role.
pub const SCHEMA_TAIL: &'static str = ", public;

            CREATE TABLE \"Regions\" (
                r_region_id int PRIMARY KEY,
                r_coord_x int,
                r_coord_y int
            );

            CREATE TABLE \"Timepoints\" (
                t_timepoint_id int PRIMARY KEY,
                t_year int,
                t_month int
            );

            CREATE TABLE \"Countries\" (
                c_iso_a3 char(3) PRIMARY KEY,
                c_name varchar(128),
                c_center_x int,
                c_center_y int
            );

            CREATE TABLE \"RegionInCountry\" (
                ric_region_id int,
                ric_iso_a3 char(3),
                PRIMARY KEY (ric_region_id, ric_iso_a3),
                CONSTRAINT fk_region FOREIGN KEY(ric_region_id) REFERENCES \"Regions\"(r_region_id),
                CONSTRAINT fk_country FOREIGN KEY(ric_iso_a3) REFERENCES \"Countries\"(c_iso_a3)
            );

            CREATE TABLE \"Weatherpoints\" (
                wp_region_id int,
                wp_timepoint_id int,
                wp_prec int,
                wp_tmin int,
                wp_tmax int,
                PRIMARY KEY (wp_region_id, wp_timepoint_id),
                CONSTRAINT fk_region FOREIGN KEY(wp_region_id) REFERENCES \"Regions\"(r_region_id),
                CONSTRAINT fk_timepoint FOREIGN KEY(wp_timepoint_id) REFERENCES \"Timepoints\"(t_timepoint_id)
            );
        ";

/// The start of the statement that inserts rows into the regions table.
pub const REGIONS_INSERT_HEAD: &'static str = "
            INSERT INTO \"Regions\" VALUES ";

/// The start of the statement that inserts rows into the timepoints table.
pub const TIMEPOINTS_INSERT_HEAD: &'static str = "
            INSERT INTO \"Timepoints\" VALUES ";

/// The start of the statement that inserts rows into the weatherpoints table.
pub const WEATHERPOINTS_INSERT_HEAD: &'static str = "
            INSERT INTO \"Weatherpoints\" VALUES ";

/// The end of each row-inserting statement.
pub const INSERT_TAIL: &'static str = ";
        ";

/// The statement that inserts a country.
pub const COUNTRY_INSERT: &'static str = "
            INSERT INTO \"Countries\" VALUES ($1, $2, $3, $4);
        ";

/// The statement that places a region in a country.
pub const REGION_IN_COUNTRY_INSERT: &'static str = "
                INSERT INTO \"RegionInCountry\" VALUES ($1, $2);
            ";

#[verifier::external_type_specification]
#[verifier::external_body]
pub struct ExClient(Client);

/// A single connection to the weather database, used while it is filled,
/// and the role that the schema grants access to.
pub struct PGConnection {
    pub connection: Option<Client>,
    role: String,
}

pub struct PGConnectionModel {
    pub connection: Option<Client>,
    pub role: Seq<char>,
}

impl PGConnectionModel {
    pub open spec fn connected(self) -> bool {
        self.connection is Some
    }
}

impl View for PGConnection {
    type V = PGConnectionModel;

    closed spec fn view(&self) -> PGConnectionModel {
        PGConnectionModel { connection: self.connection, role: self.role@ }
    }
}

/// The script that creates the schema and grants `role` access to it.
pub open spec fn schema_script_spec(role: Seq<char>) -> Seq<char> {
    SCHEMA_HEAD@ + role + SCHEMA_TAIL@
}

impl PGConnection {
    pub fn new() -> (c: Self)
        ensures
            c@.connection is None,
            c@.role == Seq::<char>::empty(),
    {
        PGConnection { connection: None, role: String::new() }
    }

    pub fn connected(&self) -> (r: bool)
        ensures
            r == self@.connected(),
    {
        self.connection.is_some()
    }

    /// Takes `user` as the role and gives the connection string to connect
    /// with; the connection is left as it was.
    pub fn prepare_connection(
        &mut self,
        ip: &str,
        port: &str,
        name: &str,
        user: &str,
        pass: &str,
    ) -> (url: String)
        ensures
            final(self)@.role == user@,
            final(self)@.connection == old(self)@.connection,
            url@ == connection_url_spec(ip@, port@, name@, user@, pass@),
    {
        self.role = user.to_owned();
        connection_url(ip, port, name, user, pass)
    }

    /// Keeps the client that connected, if one did: then the connection stands.
    pub fn attach_client(&mut self, client: Option<Client>) -> (r: bool)
        ensures
            r == client is Some,
            final(self)@.role == old(self)@.role,
            final(self)@.connection == (match client {
                Some(c) => Some(c),
                None => old(self)@.connection,
            }),
    {
        match client {
            Some(c) => {
                self.connection = Some(c);
                true
            },
            None => false,
        }
    }

    /// The script that creates the schema, with access for this role.
    pub fn init_script(&self) -> (s: String)
        ensures
            s@ == schema_script_spec(self@.role),
    {
        let mut s = SCHEMA_HEAD.to_owned();
        s.append(self.role.as_str());
        s.append(SCHEMA_TAIL);
        s
    }

    /// The statement that inserts `regions`, each the text of a row.
    pub fn regions_insert(regions: &[String]) -> (s: String)
        ensures
            s@ == insert_statement_spec(REGIONS_INSERT_HEAD@, regions@, INSERT_TAIL@),
    {
        insert_statement(REGIONS_INSERT_HEAD, regions, INSERT_TAIL)
    }

    /// The statement that inserts `timepoints`, each the text of a row.
    pub fn timepoints_insert(timepoints: &[String]) -> (s: String)
        ensures
            s@ == insert_statement_spec(TIMEPOINTS_INSERT_HEAD@, timepoints@, INSERT_TAIL@),
    {
        insert_statement(TIMEPOINTS_INSERT_HEAD, timepoints, INSERT_TAIL)
    }

    /// The statement that inserts `weatherpoints`, each the text of a row.
    pub fn weatherpoints_insert(weatherpoints: &[String]) -> (s: String)
        ensures
            s@ == insert_statement_spec(WEATHERPOINTS_INSERT_HEAD@, weatherpoints@, INSERT_TAIL@),
    {
        insert_statement(WEATHERPOINTS_INSERT_HEAD, weatherpoints, INSERT_TAIL)
    }

    /// Begins the insertion of a country in `regions`; each region is sent
    /// as it is. Without a connection it fails at once, and no statement is
    /// asked for.
    pub fn insert_country<'a>(&self, regions: &'a [u32]) -> (r: (CountryInsert<'a>, InsertStep))
        ensures
            r.0@ == (CountryInsertModel {
                regions: regions@,
                signed_regions: false,
                next: 0,
                finished: !self@.connected(),
            }),
            r.1 == (if self@.connected() {
                InsertStep::InsertCountry
            } else {
                InsertStep::Done(false)
            }),
    {
        if self.connection.is_some() {
            CountryInsert::new(regions, false)
        } else {
            CountryInsert::refused(regions, false)
        }
    }
}

} // verus!
