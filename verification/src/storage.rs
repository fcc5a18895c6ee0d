//! The schema of the sensor database: the statements that create its
//! tables and fill the tables of value types and units, in the order they run.

use vstd::prelude::*;

verus! {

/// The statements that create the tables of value types and units and
/// fill them.
pub open spec fn types_and_units_spec() -> Seq<&'static str> {
    seq![
        "CREATE TABLE sensor_value_types (\n                    id              SERIAL PRIMARY KEY,\n                    name            VARCHAR(100) UNIQUE\n                )",
        "INSERT INTO sensor_value_types (name) VALUES ('Temperature')",
        "INSERT INTO sensor_value_types (name) VALUES ('Humidity')",
        "INSERT INTO sensor_value_types (name) VALUES ('Carbon dioxide')",
        "INSERT INTO sensor_value_types (name) VALUES ('Litre')",
        "INSERT INTO sensor_value_types (name) VALUES ('SolarIncidience')",
        "INSERT INTO sensor_value_types (name) VALUES ('Electrical')",
        "INSERT INTO sensor_value_types (name) VALUES ('HeatFlow')",
        "CREATE TABLE sensor_value_units (\n                    id              SERIAL PRIMARY KEY,\n                    name            VARCHAR(100) UNIQUE,\n                    description     VARCHAR(200)\n                )",
        "INSERT INTO sensor_value_units (name, description) VALUES ('C', 'Celsius')",
        "INSERT INTO sensor_value_units (name, description) VALUES ('%RH', 'Relative Humidity Percentage')",
        "INSERT INTO sensor_value_units (name, description) VALUES ('PPM', 'Parts Per Million')",
        "INSERT INTO sensor_value_units (name, description) VALUES ('W^m2', 'Watts per metre squared')",
        "INSERT INTO sensor_value_units (name, description) VALUES ('kW', 'Kilowatts')",
        "INSERT INTO sensor_value_units (name, description) VALUES ('W', 'Watts')",
        "INSERT INTO sensor_value_units (name, description) VALUES ('kWh', 'Kilowatt Hours')",
    ]
}

/// The statement that creates the table of sensors.
pub open spec fn sensors_table_spec() -> &'static str {
    "CREATE TABLE sensors (\n                    id              SERIAL PRIMARY KEY,\n                    name            VARCHAR(100) NOT NULL,\n                    namespace       VARCHAR(500) NOT NULL,\n                    description     VARCHAR(200) NOT NULL,\n                    time_created    TIMESTAMP NOT NULL,\n                    last_timestamp  TIMESTAMP DEFAULT '1970-01-01 00:00:00.000',\n                    first_timestamp TIMESTAMP DEFAULT '1970-01-01 00:00:00.000',\n                    max_meter_value INTEGER DEFAULT 9999,\n                    type_id         INTEGER DEFAULT 1,\n                    unit_id         INTEGER DEFAULT 1,\n                    resolution      REAL DEFAULT 0.0,\n                    accuracy        REAL DEFAULT 0.0,\n                    kw_calibration_factor REAL DEFAULT 1.0 NOT NULL,\n                    sample_interval INTEGER DEFAULT 300 NOT NULL,\n                    ever_increasing INTEGER DEFAULT 0,\n                    FOREIGN KEY (type_id) REFERENCES sensor_value_types(id),\n                    FOREIGN KEY (unit_id) REFERENCES sensor_value_units(id)\n                )"
}

/// The statement that creates the table of sensor values.
pub open spec fn sensor_value_table_spec() -> &'static str {
    "CREATE TABLE sensor_values (\n                    ts              TIMESTAMP NOT NULL PRIMARY KEY,\n                    sensor_id       INTEGER NOT NULL,\n                    value           REAL NOT NULL DEFAULT 'NaN',\n                    FOREIGN KEY     (sensor_id) REFERENCES sensors(id)\n                )"
}

/// The statements that create the tables of value types and units and fill
/// them, in order.
pub fn create_types_and_units() -> (r: Vec<&'static str>)
    ensures
        r@ == types_and_units_spec(),
{
    let mut v: Vec<&'static str> = Vec::new();
    v.push("CREATE TABLE sensor_value_types (\n                    id              SERIAL PRIMARY KEY,\n                    name            VARCHAR(100) UNIQUE\n                )");
    v.push("INSERT INTO sensor_value_types (name) VALUES ('Temperature')");
    v.push("INSERT INTO sensor_value_types (name) VALUES ('Humidity')");
    v.push("INSERT INTO sensor_value_types (name) VALUES ('Carbon dioxide')");
    v.push("INSERT INTO sensor_value_types (name) VALUES ('Litre')");
    v.push("INSERT INTO sensor_value_types (name) VALUES ('SolarIncidience')");
    v.push("INSERT INTO sensor_value_types (name) VALUES ('Electrical')");
    v.push("INSERT INTO sensor_value_types (name) VALUES ('HeatFlow')");
    v.push("CREATE TABLE sensor_value_units (\n                    id              SERIAL PRIMARY KEY,\n                    name            VARCHAR(100) UNIQUE,\n                    description     VARCHAR(200)\n                )");
    v.push("INSERT INTO sensor_value_units (name, description) VALUES ('C', 'Celsius')");
    v.push("INSERT INTO sensor_value_units (name, description) VALUES ('%RH', 'Relative Humidity Percentage')");
    v.push("INSERT INTO sensor_value_units (name, description) VALUES ('PPM', 'Parts Per Million')");
    v.push("INSERT INTO sensor_value_units (name, description) VALUES ('W^m2', 'Watts per metre squared')");
    v.push("INSERT INTO sensor_value_units (name, description) VALUES ('kW', 'Kilowatts')");
    v.push("INSERT INTO sensor_value_units (name, description) VALUES ('W', 'Watts')");
    v.push("INSERT INTO sensor_value_units (name, description) VALUES ('kWh', 'Kilowatt Hours')");
    v
}

/// The statement that creates the table of sensors.
pub fn create_sensors_table() -> (r: &'static str)
    ensures
        r == sensors_table_spec(),
{
    "CREATE TABLE sensors (\n                    id              SERIAL PRIMARY KEY,\n                    name            VARCHAR(100) NOT NULL,\n                    namespace       VARCHAR(500) NOT NULL,\n                    description     VARCHAR(200) NOT NULL,\n                    time_created    TIMESTAMP NOT NULL,\n                    last_timestamp  TIMESTAMP DEFAULT '1970-01-01 00:00:00.000',\n                    first_timestamp TIMESTAMP DEFAULT '1970-01-01 00:00:00.000',\n                    max_meter_value INTEGER DEFAULT 9999,\n                    type_id         INTEGER DEFAULT 1,\n                    unit_id         INTEGER DEFAULT 1,\n                    resolution      REAL DEFAULT 0.0,\n                    accuracy        REAL DEFAULT 0.0,\n                    kw_calibration_factor REAL DEFAULT 1.0 NOT NULL,\n                    sample_interval INTEGER DEFAULT 300 NOT NULL,\n                    ever_increasing INTEGER DEFAULT 0,\n                    FOREIGN KEY (type_id) REFERENCES sensor_value_types(id),\n                    FOREIGN KEY (unit_id) REFERENCES sensor_value_units(id)\n                )"
}

/// The statement that creates the table of sensor values.
pub fn create_sensor_value_table() -> (r: &'static str)
    ensures
        r == sensor_value_table_spec(),
{
    "CREATE TABLE sensor_values (\n                    ts              TIMESTAMP NOT NULL PRIMARY KEY,\n                    sensor_id       INTEGER NOT NULL,\n                    value           REAL NOT NULL DEFAULT 'NaN',\n                    FOREIGN KEY     (sensor_id) REFERENCES sensors(id)\n                )"
}

/// Every statement that sets the database up, in order: types and units,
/// then sensors, then sensor values.
pub fn create_tables() -> (r: Vec<&'static str>)
    ensures
        r@ == types_and_units_spec() + seq![sensors_table_spec(), sensor_value_table_spec()],
{
    let mut v = create_types_and_units();
    v.push(create_sensors_table());
    v.push(create_sensor_value_table());
    v
}

/// A line of a table definition: a column or a constraint, on a line of its
/// own and indented as the schema writes it.
pub open spec fn table_line(def: &str) -> Seq<char> {
    "\n                    "@ + def@
}

/// The statement that adds the value type `name`.
pub open spec fn value_type_row(name: &str) -> Seq<char> {
    "INSERT INTO sensor_value_types (name) VALUES ('"@ + name@ + "')"@
}

/// The statement that adds the unit `name` with its description.
pub open spec fn unit_row(name: &str, description: &str) -> Seq<char> {
    "INSERT INTO sensor_value_units (name, description) VALUES ('"@ + name@ + "', '"@ + description@
        + "')"@
}

/// The set-up first creates the table of value types and then adds, in
/// this order, the types Temperature, Humidity, Carbon dioxide, Litre,
/// SolarIncidience, Electrical and HeatFlow, one statement each; then it
/// creates the table of units and adds the seven units.
pub proof fn lemma_value_type_rows()
    ensures
        types_and_units_spec().len() == 16,
        types_and_units_spec()[1]@ == value_type_row("Temperature"),
        types_and_units_spec()[2]@ == value_type_row("Humidity"),
        types_and_units_spec()[3]@ == value_type_row("Carbon dioxide"),
        types_and_units_spec()[4]@ == value_type_row("Litre"),
        types_and_units_spec()[5]@ == value_type_row("SolarIncidience"),
        types_and_units_spec()[6]@ == value_type_row("Electrical"),
        types_and_units_spec()[7]@ == value_type_row("HeatFlow"),
{
    reveal_strlit("INSERT INTO sensor_value_types (name) VALUES ('Temperature')");
    reveal_strlit("INSERT INTO sensor_value_types (name) VALUES ('Humidity')");
    reveal_strlit("INSERT INTO sensor_value_types (name) VALUES ('Carbon dioxide')");
    reveal_strlit("INSERT INTO sensor_value_types (name) VALUES ('Litre')");
    reveal_strlit("INSERT INTO sensor_value_types (name) VALUES ('SolarIncidience')");
    reveal_strlit("INSERT INTO sensor_value_types (name) VALUES ('Electrical')");
    reveal_strlit("INSERT INTO sensor_value_types (name) VALUES ('HeatFlow')");
    reveal_strlit("INSERT INTO sensor_value_types (name) VALUES ('");
    reveal_strlit("')");
    reveal_strlit("Temperature");
    reveal_strlit("Humidity");
    reveal_strlit("Carbon dioxide");
    reveal_strlit("Litre");
    reveal_strlit("SolarIncidience");
    reveal_strlit("Electrical");
    reveal_strlit("HeatFlow");
    assert(types_and_units_spec()[1]@ =~= value_type_row("Temperature"));
    assert(types_and_units_spec()[2]@ =~= value_type_row("Humidity"));
    assert(types_and_units_spec()[3]@ =~= value_type_row("Carbon dioxide"));
    assert(types_and_units_spec()[4]@ =~= value_type_row("Litre"));
    assert(types_and_units_spec()[5]@ =~= value_type_row("SolarIncidience"));
    assert(types_and_units_spec()[6]@ =~= value_type_row("Electrical"));
    assert(types_and_units_spec()[7]@ =~= value_type_row("HeatFlow"));
}

/// Each unit row pairs the unit with its own description, in this order:
/// C Celsius, %RH Relative Humidity Percentage, PPM Parts Per Million,
/// W^m2 Watts per metre squared, kW Kilowatts, W Watts, kWh Kilowatt Hours.
pub proof fn lemma_unit_rows()
    ensures
        types_and_units_spec()[9]@ == unit_row("C", "Celsius"),
        types_and_units_spec()[10]@ == unit_row("%RH", "Relative Humidity Percentage"),
        types_and_units_spec()[11]@ == unit_row("PPM", "Parts Per Million"),
        types_and_units_spec()[12]@ == unit_row("W^m2", "Watts per metre squared"),
        types_and_units_spec()[13]@ == unit_row("kW", "Kilowatts"),
        types_and_units_spec()[14]@ == unit_row("W", "Watts"),
        types_and_units_spec()[15]@ == unit_row("kWh", "Kilowatt Hours"),
{
    reveal_strlit("INSERT INTO sensor_value_units (name, description) VALUES ('C', 'Celsius')");
    reveal_strlit("INSERT INTO sensor_value_units (name, description) VALUES ('%RH', 'Relative Humidity Percentage')");
    reveal_strlit("INSERT INTO sensor_value_units (name, description) VALUES ('PPM', 'Parts Per Million')");
    reveal_strlit("INSERT INTO sensor_value_units (name, description) VALUES ('W^m2', 'Watts per metre squared')");
    reveal_strlit("INSERT INTO sensor_value_units (name, description) VALUES ('kW', 'Kilowatts')");
    reveal_strlit("INSERT INTO sensor_value_units (name, description) VALUES ('W', 'Watts')");
    reveal_strlit("INSERT INTO sensor_value_units (name, description) VALUES ('kWh', 'Kilowatt Hours')");
    reveal_strlit("INSERT INTO sensor_value_units (name, description) VALUES ('");
    reveal_strlit("', '");
    reveal_strlit("')");
    reveal_strlit("C");
    reveal_strlit("Celsius");
    reveal_strlit("%RH");
    reveal_strlit("Relative Humidity Percentage");
    reveal_strlit("PPM");
    reveal_strlit("Parts Per Million");
    reveal_strlit("W^m2");
    reveal_strlit("Watts per metre squared");
    reveal_strlit("kW");
    reveal_strlit("Kilowatts");
    reveal_strlit("W");
    reveal_strlit("Watts");
    reveal_strlit("kWh");
    reveal_strlit("Kilowatt Hours");
    assert(types_and_units_spec()[9]@ =~= unit_row("C", "Celsius"));
    assert(types_and_units_spec()[10]@ =~= unit_row("%RH", "Relative Humidity Percentage"));
    assert(types_and_units_spec()[11]@ =~= unit_row("PPM", "Parts Per Million"));
    assert(types_and_units_spec()[12]@ =~= unit_row("W^m2", "Watts per metre squared"));
    assert(types_and_units_spec()[13]@ =~= unit_row("kW", "Kilowatts"));
    assert(types_and_units_spec()[14]@ =~= unit_row("W", "Watts"));
    assert(types_and_units_spec()[15]@ =~= unit_row("kWh", "Kilowatt Hours"));
}

/// The table of value types has an `id` key and a unique `name`.
pub proof fn lemma_value_type_table()
    ensures
        types_and_units_spec()[0]@ == "CREATE TABLE sensor_value_types ("@
            + table_line("id              SERIAL PRIMARY KEY")
            + ","@
            + table_line("name            VARCHAR(100) UNIQUE")
            + "\n                )"@,
{
    reveal_strlit("CREATE TABLE sensor_value_types (\n                    id              SERIAL PRIMARY KEY,\n                    name            VARCHAR(100) UNIQUE\n                )");
    reveal_strlit("CREATE TABLE sensor_value_types (");
    reveal_strlit("id              SERIAL PRIMARY KEY");
    reveal_strlit("name            VARCHAR(100) UNIQUE");
    reveal_strlit(",");
    reveal_strlit("\n                    ");
    reveal_strlit("\n                )");
    assert(types_and_units_spec()[0]@ =~= "CREATE TABLE sensor_value_types ("@
            + table_line("id              SERIAL PRIMARY KEY")
            + ","@
            + table_line("name            VARCHAR(100) UNIQUE")
            + "\n                )"@);
}

/// The table of units has an `id` key, a unique `name` and a `description`.
pub proof fn lemma_unit_table()
    ensures
        types_and_units_spec()[8]@ == "CREATE TABLE sensor_value_units ("@
            + table_line("id              SERIAL PRIMARY KEY")
            + ","@
            + table_line("name            VARCHAR(100) UNIQUE")
            + ","@
            + table_line("description     VARCHAR(200)")
            + "\n                )"@,
{
    reveal_strlit("CREATE TABLE sensor_value_units (\n                    id              SERIAL PRIMARY KEY,\n                    name            VARCHAR(100) UNIQUE,\n                    description     VARCHAR(200)\n                )");
    reveal_strlit("CREATE TABLE sensor_value_units (");
    reveal_strlit("id              SERIAL PRIMARY KEY");
    reveal_strlit("name            VARCHAR(100) UNIQUE");
    reveal_strlit("description     VARCHAR(200)");
    reveal_strlit(",");
    reveal_strlit("\n                    ");
    reveal_strlit("\n                )");
    assert(types_and_units_spec()[8]@ =~= "CREATE TABLE sensor_value_units ("@
            + table_line("id              SERIAL PRIMARY KEY")
            + ","@
            + table_line("name            VARCHAR(100) UNIQUE")
            + ","@
            + table_line("description     VARCHAR(200)")
            + "\n                )"@);
}

/// The table of sensors declares, in this order, the columns id, name,
/// namespace, description, time_created, last_timestamp, first_timestamp,
/// max_meter_value, type_id, unit_id, resolution, accuracy,
/// kw_calibration_factor, sample_interval and ever_increasing with their
/// types and defaults, and the foreign keys to the tables of value types
/// and units.
pub proof fn lemma_sensors_table()
    ensures
        sensors_table_spec()@ == "CREATE TABLE sensors ("@
            + table_line("id              SERIAL PRIMARY KEY")
            + ","@
            + table_line("name            VARCHAR(100) NOT NULL")
            + ","@
            + table_line("namespace       VARCHAR(500) NOT NULL")
            + ","@
            + table_line("description     VARCHAR(200) NOT NULL")
            + ","@
            + table_line("time_created    TIMESTAMP NOT NULL")
            + ","@
            + table_line("last_timestamp  TIMESTAMP DEFAULT '1970-01-01 00:00:00.000'")
            + ","@
            + table_line("first_timestamp TIMESTAMP DEFAULT '1970-01-01 00:00:00.000'")
            + ","@
            + table_line("max_meter_value INTEGER DEFAULT 9999")
            + ","@
            + table_line("type_id         INTEGER DEFAULT 1")
            + ","@
            + table_line("unit_id         INTEGER DEFAULT 1")
            + ","@
            + table_line("resolution      REAL DEFAULT 0.0")
            + ","@
            + table_line("accuracy        REAL DEFAULT 0.0")
            + ","@
            + table_line("kw_calibration_factor REAL DEFAULT 1.0 NOT NULL")
            + ","@
            + table_line("sample_interval INTEGER DEFAULT 300 NOT NULL")
            + ","@
            + table_line("ever_increasing INTEGER DEFAULT 0")
            + ","@
            + table_line("FOREIGN KEY (type_id) REFERENCES sensor_value_types(id)")
            + ","@
            + table_line("FOREIGN KEY (unit_id) REFERENCES sensor_value_units(id)")
            + "\n                )"@,
{
    reveal_strlit("CREATE TABLE sensors (\n                    id              SERIAL PRIMARY KEY,\n                    name            VARCHAR(100) NOT NULL,\n                    namespace       VARCHAR(500) NOT NULL,\n                    description     VARCHAR(200) NOT NULL,\n                    time_created    TIMESTAMP NOT NULL,\n                    last_timestamp  TIMESTAMP DEFAULT '1970-01-01 00:00:00.000',\n                    first_timestamp TIMESTAMP DEFAULT '1970-01-01 00:00:00.000',\n                    max_meter_value INTEGER DEFAULT 9999,\n                    type_id         INTEGER DEFAULT 1,\n                    unit_id         INTEGER DEFAULT 1,\n                    resolution      REAL DEFAULT 0.0,\n                    accuracy        REAL DEFAULT 0.0,\n                    kw_calibration_factor REAL DEFAULT 1.0 NOT NULL,\n                    sample_interval INTEGER DEFAULT 300 NOT NULL,\n                    ever_increasing INTEGER DEFAULT 0,\n                    FOREIGN KEY (type_id) REFERENCES sensor_value_types(id),\n                    FOREIGN KEY (unit_id) REFERENCES sensor_value_units(id)\n                )");
    reveal_strlit("CREATE TABLE sensors (");
    reveal_strlit("id              SERIAL PRIMARY KEY");
    reveal_strlit("name            VARCHAR(100) NOT NULL");
    reveal_strlit("namespace       VARCHAR(500) NOT NULL");
    reveal_strlit("description     VARCHAR(200) NOT NULL");
    reveal_strlit("time_created    TIMESTAMP NOT NULL");
    reveal_strlit("last_timestamp  TIMESTAMP DEFAULT '1970-01-01 00:00:00.000'");
    reveal_strlit("first_timestamp TIMESTAMP DEFAULT '1970-01-01 00:00:00.000'");
    reveal_strlit("max_meter_value INTEGER DEFAULT 9999");
    reveal_strlit("type_id         INTEGER DEFAULT 1");
    reveal_strlit("unit_id         INTEGER DEFAULT 1");
    reveal_strlit("resolution      REAL DEFAULT 0.0");
    reveal_strlit("accuracy        REAL DEFAULT 0.0");
    reveal_strlit("kw_calibration_factor REAL DEFAULT 1.0 NOT NULL");
    reveal_strlit("sample_interval INTEGER DEFAULT 300 NOT NULL");
    reveal_strlit("ever_increasing INTEGER DEFAULT 0");
    reveal_strlit("FOREIGN KEY (type_id) REFERENCES sensor_value_types(id)");
    reveal_strlit("FOREIGN KEY (unit_id) REFERENCES sensor_value_units(id)");
    reveal_strlit(",");
    reveal_strlit("\n                    ");
    reveal_strlit("\n                )");
    assert(sensors_table_spec()@ =~= "CREATE TABLE sensors ("@
            + table_line("id              SERIAL PRIMARY KEY")
            + ","@
            + table_line("name            VARCHAR(100) NOT NULL")
            + ","@
            + table_line("namespace       VARCHAR(500) NOT NULL")
            + ","@
            + table_line("description     VARCHAR(200) NOT NULL")
            + ","@
            + table_line("time_created    TIMESTAMP NOT NULL")
            + ","@
            + table_line("last_timestamp  TIMESTAMP DEFAULT '1970-01-01 00:00:00.000'")
            + ","@
            + table_line("first_timestamp TIMESTAMP DEFAULT '1970-01-01 00:00:00.000'")
            + ","@
            + table_line("max_meter_value INTEGER DEFAULT 9999")
            + ","@
            + table_line("type_id         INTEGER DEFAULT 1")
            + ","@
            + table_line("unit_id         INTEGER DEFAULT 1")
            + ","@
            + table_line("resolution      REAL DEFAULT 0.0")
            + ","@
            + table_line("accuracy        REAL DEFAULT 0.0")
            + ","@
            + table_line("kw_calibration_factor REAL DEFAULT 1.0 NOT NULL")
            + ","@
            + table_line("sample_interval INTEGER DEFAULT 300 NOT NULL")
            + ","@
            + table_line("ever_increasing INTEGER DEFAULT 0")
            + ","@
            + table_line("FOREIGN KEY (type_id) REFERENCES sensor_value_types(id)")
            + ","@
            + table_line("FOREIGN KEY (unit_id) REFERENCES sensor_value_units(id)")
            + "\n                )"@);
}

/// The table of sensor values holds a timestamp key, the sensor and the
/// value, with the sensor as a foreign key.
pub proof fn lemma_sensor_value_table()
    ensures
        sensor_value_table_spec()@ == "CREATE TABLE sensor_values ("@
            + table_line("ts              TIMESTAMP NOT NULL PRIMARY KEY")
            + ","@
            + table_line("sensor_id       INTEGER NOT NULL")
            + ","@
            + table_line("value           REAL NOT NULL DEFAULT 'NaN'")
            + ","@
            + table_line("FOREIGN KEY     (sensor_id) REFERENCES sensors(id)")
            + "\n                )"@,
{
    reveal_strlit("CREATE TABLE sensor_values (\n                    ts              TIMESTAMP NOT NULL PRIMARY KEY,\n                    sensor_id       INTEGER NOT NULL,\n                    value           REAL NOT NULL DEFAULT 'NaN',\n                    FOREIGN KEY     (sensor_id) REFERENCES sensors(id)\n                )");
    reveal_strlit("CREATE TABLE sensor_values (");
    reveal_strlit("ts              TIMESTAMP NOT NULL PRIMARY KEY");
    reveal_strlit("sensor_id       INTEGER NOT NULL");
    reveal_strlit("value           REAL NOT NULL DEFAULT 'NaN'");
    reveal_strlit("FOREIGN KEY     (sensor_id) REFERENCES sensors(id)");
    reveal_strlit(",");
    reveal_strlit("\n                    ");
    reveal_strlit("\n                )");
    assert(sensor_value_table_spec()@ =~= "CREATE TABLE sensor_values ("@
            + table_line("ts              TIMESTAMP NOT NULL PRIMARY KEY")
            + ","@
            + table_line("sensor_id       INTEGER NOT NULL")
            + ","@
            + table_line("value           REAL NOT NULL DEFAULT 'NaN'")
            + ","@
            + table_line("FOREIGN KEY     (sensor_id) REFERENCES sensors(id)")
            + "\n                )"@);
}

} // verus!
