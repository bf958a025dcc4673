//! A writer for STEP Part 21 exchange files.
//!
//! The writer numbers the entities that are added to it, from one, and lays
//! out the file: a fixed header, one line per entity in the order of their
//! numbers, and the closing lines. Coordinates are taken as the text of STEP
//! real numbers, so the writer itself needs no arithmetic on reals.

use vstd::prelude::*;
use vstd::string::StringExecFns;

verus! {

/// The number of an entity in a STEP file, written `#n`.
#[derive(Clone, Copy, Debug, PartialEq, Eq, Structural)]
pub struct EntityId(pub u64);

/// Hands out entity numbers: one, two, three and so on.
#[derive(Clone, Copy, Debug)]
pub struct EntityIdGenerator {
    upcoming: u64,
}

impl EntityIdGenerator {
    /// The number that the next call of `next` returns.
    pub closed spec fn upcoming(&self) -> u64 {
        self.upcoming
    }

    /// A generator whose first number is one.
    pub fn new() -> (generator: EntityIdGenerator)
        ensures
            generator.upcoming() == 1,
    {
        EntityIdGenerator { upcoming: 1 }
    }

    /// Whether another number can be handed out.
    pub fn has_next(&self) -> (more: bool)
        ensures
            more == (self.upcoming() < u64::MAX),
    {
        self.upcoming < u64::MAX
    }

    /// Hands out the upcoming number.
    pub fn next(&mut self) -> (id: EntityId)
        requires
            old(self).upcoming() < u64::MAX,
        ensures
            id == EntityId(old(self).upcoming()),
            final(self).upcoming() == old(self).upcoming() + 1,
    {
        let id = EntityId(self.upcoming);
        self.upcoming = self.upcoming + 1;
        id
    }
}

/// The character of the decimal digit `d`.
pub open spec fn digit_char(d: int) -> char {
    if d == 0 {
        '0'
    } else if d == 1 {
        '1'
    } else if d == 2 {
        '2'
    } else if d == 3 {
        '3'
    } else if d == 4 {
        '4'
    } else if d == 5 {
        '5'
    } else if d == 6 {
        '6'
    } else if d == 7 {
        '7'
    } else if d == 8 {
        '8'
    } else {
        '9'
    }
}

/// The decimal numeral of `n`, without leading zeros.
pub open spec fn decimal(n: nat) -> Seq<char>
    decreases n,
{
    if n < 10 {
        seq![digit_char(n as int)]
    } else {
        decimal(n / 10).push(digit_char((n % 10) as int))
    }
}

/// The text of the decimal digit `d`.
fn digit_text(d: u64) -> (text: &'static str)
    requires
        d < 10,
    ensures
        text@ == seq![digit_char(d as int)],
{
    proof {
        reveal_strlit("0");
        reveal_strlit("1");
        reveal_strlit("2");
        reveal_strlit("3");
        reveal_strlit("4");
        reveal_strlit("5");
        reveal_strlit("6");
        reveal_strlit("7");
        reveal_strlit("8");
        reveal_strlit("9");
    }
    let text = if d == 0 {
        "0"
    } else if d == 1 {
        "1"
    } else if d == 2 {
        "2"
    } else if d == 3 {
        "3"
    } else if d == 4 {
        "4"
    } else if d == 5 {
        "5"
    } else if d == 6 {
        "6"
    } else if d == 7 {
        "7"
    } else if d == 8 {
        "8"
    } else {
        "9"
    };
    text
}

/// Appends the decimal numeral of `n` to `out`.
pub fn write_decimal(out: &mut String, n: u64)
    ensures
        final(out)@ == old(out)@ + decimal(n as nat),
    decreases n,
{
    if n >= 10 {
        write_decimal(out, n / 10);
    }
    out.append(digit_text(n % 10));
}

/// The kinds of entity that the writer knows.
#[derive(Clone, Copy, Debug, PartialEq, Eq, Structural)]
pub enum EntityKind {
    /// A point, given by its three coordinates.
    CartesianPoint,
    /// A direction, given by its three ratios.
    Direction,
}

/// An entity of a STEP file: its number, its kind, its name, and its three
/// components as the text of STEP reals.
#[derive(Debug)]
pub struct StepEntity {
    /// The entity's number.
    pub id: EntityId,
    /// What the entity is.
    pub kind: EntityKind,
    /// The entity's name; it may be empty.
    pub name: String,
    /// The first component.
    pub x: String,
    /// The second component.
    pub y: String,
    /// The third component.
    pub z: String,
}

/// What an entity holds, as mathematical values.
pub ghost struct EntityView {
    pub id: EntityId,
    pub kind: EntityKind,
    pub name: Seq<char>,
    pub x: Seq<char>,
    pub y: Seq<char>,
    pub z: Seq<char>,
}

impl View for StepEntity {
    type V = EntityView;

    open spec fn view(&self) -> EntityView {
        EntityView {
            id: self.id,
            kind: self.kind,
            name: self.name@,
            x: self.x@,
            y: self.y@,
            z: self.z@,
        }
    }
}

/// The keyword that a STEP file writes for `kind`.
pub open spec fn keyword(kind: EntityKind) -> Seq<char> {
    match kind {
        EntityKind::CartesianPoint => "CARTESIAN_POINT"@,
        EntityKind::Direction => "DIRECTION"@,
    }
}

/// The line of `entity`: its number, its keyword, and in brackets its name
/// in quotes and its components. The name and the components are written as
/// they are.
pub open spec fn entity_line(entity: EntityView) -> Seq<char> {
    "#"@ + decimal(entity.id.0 as nat) + "="@ + keyword(entity.kind) + "('"@ + entity.name
        + "',("@ + entity.x + ","@ + entity.y + ","@ + entity.z + "));\n"@
}

/// The lines of `entities`, in order.
pub open spec fn data_lines(entities: Seq<EntityView>) -> Seq<char>
    decreases entities.len(),
{
    if entities.len() == 0 {
        Seq::empty()
    } else {
        data_lines(entities.drop_last()) + entity_line(entities.last())
    }
}

/// The lines before the entities: the header section and the opening of the
/// data section.
pub open spec fn header_text() -> Seq<char> {
    "ISO-10303-21;\n"@ + "HEADER;\n"@
        + "FILE_DESCRIPTION(('AutoCrate ASTM D6039 Crate'),'2;1');\n"@
        + "FILE_NAME('crate.step','2025-12-02T00:00:00',('AutoCrate'),('Antimony Labs'),'','','');\n"@
        + "FILE_SCHEMA(('AP242_MANAGED_MODEL_BASED_3D_ENGINEERING_MIM_LF'));\n"@ + "ENDSEC;\n"@
        + "DATA;\n"@
}

/// The lines after the entities.
pub open spec fn trailer_text() -> Seq<char> {
    "ENDSEC;\n"@ + "END-ISO-10303-21;\n"@
}

/// The complete file for `entities`.
pub open spec fn file_text(entities: Seq<EntityView>) -> Seq<char> {
    header_text() + data_lines(entities) + trailer_text()
}

/// The entities are numbered one, two, three and so on, in their order.
pub open spec fn numbered_from_one(entities: Seq<EntityView>) -> bool {
    forall|i: int|
        0 <= i < entities.len() ==> (#[trigger] entities[i]).id == EntityId((i + 1) as u64)
}

/// The entity that `add_point` and `add_direction` append to `entities`.
pub open spec fn next_entity(
    entities: Seq<EntityView>,
    kind: EntityKind,
    name: Seq<char>,
    x: Seq<char>,
    y: Seq<char>,
    z: Seq<char>,
) -> EntityView {
    EntityView { id: EntityId((entities.len() + 1) as u64), kind, name, x, y, z }
}

/// `entities` with a point of the given coordinates and no name appended.
pub open spec fn with_corner(
    entities: Seq<EntityView>,
    x: Seq<char>,
    y: Seq<char>,
    z: Seq<char>,
) -> Seq<EntityView> {
    entities.push(next_entity(entities, EntityKind::CartesianPoint, Seq::empty(), x, y, z))
}

/// Appends the line of `entity` to `out`.
fn write_entity(out: &mut String, entity: &StepEntity)
    ensures
        final(out)@ == old(out)@ + entity_line(entity@),
{
    out.append("#");
    write_decimal(out, entity.id.0);
    out.append("=");
    match entity.kind {
        EntityKind::CartesianPoint => out.append("CARTESIAN_POINT"),
        EntityKind::Direction => out.append("DIRECTION"),
    }
    out.append("('");
    out.append(entity.name.as_str());
    out.append("',(");
    out.append(entity.x.as_str());
    out.append(",");
    out.append(entity.y.as_str());
    out.append(",");
    out.append(entity.z.as_str());
    out.append("));\n");
}

/// Collects numbered entities and writes them out as a STEP file.
pub struct StepWriter {
    id_gen: EntityIdGenerator,
    entities: Vec<StepEntity>,
}

impl View for StepWriter {
    type V = Seq<EntityView>;

    closed spec fn view(&self) -> Seq<EntityView> {
        self.entities@.map_values(|entity: StepEntity| entity@)
    }
}

impl StepWriter {
    /// The number that the next entity gets.
    pub closed spec fn upcoming(&self) -> u64 {
        self.id_gen.upcoming()
    }

    /// The writer's invariant: the entities are numbered from one, and the
    /// next number is the one after the last.
    pub open spec fn wf(&self) -> bool {
        &&& numbered_from_one(self@)
        &&& self.upcoming() == self@.len() + 1
    }

    /// Whether `more` further entities can be numbered.
    pub open spec fn has_room(&self, more: nat) -> bool {
        self@.len() + more < u64::MAX
    }

    /// A writer without entities.
    pub fn new() -> (writer: StepWriter)
        ensures
            writer@ == Seq::<EntityView>::empty(),
            writer.wf(),
    {
        let writer = StepWriter { id_gen: EntityIdGenerator::new(), entities: Vec::new() };
        writer
    }

    /// The number of entities.
    pub fn len(&self) -> (n: usize)
        ensures
            n == self@.len(),
    {
        self.entities.len()
    }

    /// Appends an entity and returns its number.
    fn add_entity(&mut self, kind: EntityKind, name: &str, x: &str, y: &str, z: &str) -> (id:
        EntityId)
        requires
            old(self).wf(),
            old(self).has_room(1),
        ensures
            final(self).wf(),
            id == EntityId((old(self)@.len() + 1) as u64),
            final(self)@ == old(self)@.push(next_entity(old(self)@, kind, name@, x@, y@, z@)),
    {
        let id = self.id_gen.next();
        let entity = StepEntity {
            id,
            kind,
            name: name.to_owned(),
            x: x.to_owned(),
            y: y.to_owned(),
            z: z.to_owned(),
        };
        self.entities.push(entity);
        assert(self@ =~= old(self)@.push(next_entity(old(self)@, kind, name@, x@, y@, z@)));
        id
    }

    /// Adds a cartesian point and returns its number. The coordinates are
    /// given as the text of STEP reals.
    pub fn add_point(&mut self, name: &str, x: &str, y: &str, z: &str) -> (id: EntityId)
        requires
            old(self).wf(),
            old(self).has_room(1),
        ensures
            final(self).wf(),
            id == EntityId((old(self)@.len() + 1) as u64),
            final(self)@ == old(self)@.push(
                next_entity(old(self)@, EntityKind::CartesianPoint, name@, x@, y@, z@),
            ),
    {
        self.add_entity(EntityKind::CartesianPoint, name, x, y, z)
    }

    /// Adds a direction and returns its number. The ratios are given as the
    /// text of STEP reals.
    pub fn add_direction(&mut self, name: &str, x: &str, y: &str, z: &str) -> (id: EntityId)
        requires
            old(self).wf(),
            old(self).has_room(1),
        ensures
            final(self).wf(),
            id == EntityId((old(self)@.len() + 1) as u64),
            final(self)@ == old(self)@.push(
                next_entity(old(self)@, EntityKind::Direction, name@, x@, y@, z@),
            ),
    {
        self.add_entity(EntityKind::Direction, name, x, y, z)
    }

    /// Adds the eight corners of the box between `min` and `max` as points
    /// without a name: the four corners of the lower face, counterclockwise
    /// from `min`, then the four above them.
    pub fn add_box(&mut self, min: [&str; 3], max: [&str; 3])
        requires
            old(self).wf(),
            old(self).has_room(8),
        ensures
            final(self).wf(),
            final(self)@ == with_corner(
                with_corner(
                    with_corner(
                        with_corner(
                            with_corner(
                                with_corner(
                                    with_corner(
                                        with_corner(old(self)@, min[0]@, min[1]@, min[2]@),
                                        max[0]@,
                                        min[1]@,
                                        min[2]@,
                                    ),
                                    max[0]@,
                                    max[1]@,
                                    min[2]@,
                                ),
                                min[0]@,
                                max[1]@,
                                min[2]@,
                            ),
                            min[0]@,
                            min[1]@,
                            max[2]@,
                        ),
                        max[0]@,
                        min[1]@,
                        max[2]@,
                    ),
                    max[0]@,
                    max[1]@,
                    max[2]@,
                ),
                min[0]@,
                max[1]@,
                max[2]@,
            ),
    {
        proof {
            reveal_strlit("");
            assert(""@ =~= Seq::<char>::empty());
        }
        self.add_point("", min[0], min[1], min[2]);
        self.add_point("", max[0], min[1], min[2]);
        self.add_point("", max[0], max[1], min[2]);
        self.add_point("", min[0], max[1], min[2]);
        self.add_point("", min[0], min[1], max[2]);
        self.add_point("", max[0], min[1], max[2]);
        self.add_point("", max[0], max[1], max[2]);
        self.add_point("", min[0], max[1], max[2]);
    }

    /// Appends the complete STEP file to `out`: the header, the entities in
    /// the order of their numbers, one per line, and the closing lines.
    pub fn write_to(&self, out: &mut String)
        ensures
            final(out)@ == old(out)@ + file_text(self@),
    {
        out.append("ISO-10303-21;\n");
        out.append("HEADER;\n");
        out.append("FILE_DESCRIPTION(('AutoCrate ASTM D6039 Crate'),'2;1');\n");
        out.append(
            "FILE_NAME('crate.step','2025-12-02T00:00:00',('AutoCrate'),('Antimony Labs'),'','','');\n",
        );
        out.append("FILE_SCHEMA(('AP242_MANAGED_MODEL_BASED_3D_ENGINEERING_MIM_LF'));\n");
        out.append("ENDSEC;\n");
        out.append("DATA;\n");
        let mut i: usize = 0;
        while i < self.entities.len()
            invariant
                i <= self.entities@.len(),
                self@.len() == self.entities@.len(),
                out@ == old(out)@ + header_text() + data_lines(self@.take(i as int)),
            decreases self.entities@.len() - i,
        {
            write_entity(out, &self.entities[i]);
            proof {
                assert(self@.take(i + 1).drop_last() =~= self@.take(i as int));
            }
            i += 1;
        }
        assert(self@.take(i as int) =~= self@);
        out.append("ENDSEC;\n");
        out.append("END-ISO-10303-21;\n");
    }

    /// The complete STEP file as a string.
    pub fn to_string(&self) -> (text: String)
        ensures
            text@ == file_text(self@),
    {
        let mut text = String::new();
        self.write_to(&mut text);
        text
    }
}

impl Default for StepWriter {
    fn default() -> (writer: StepWriter)
        ensures
            writer@ == Seq::<EntityView>::empty(),
            writer.wf(),
    {
        StepWriter::new()
    }
}

} // verus!
