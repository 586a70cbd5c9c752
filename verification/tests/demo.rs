use bevy_ecs::component::{Component, TableStorage};
use bevy_ecs::entity::Entity;
use bevy_ecs::system::Query;
use robot::modules::output::{OutputType, Reading};
use robot::modules::sensor::{Features, SensorBuilder};
use robot::modules::{Descriptor, Metadata, Module};
use robot::Robot;
use bevy_ecs::schedule::Stage;

/// One pass over all the systems of the robot, the caller's among them.
fn pass(robot: &mut Robot) {
    let (schedule, world) = robot.parts();
    schedule.run(world);
}

// Display

#[derive(Clone)]
struct DisplayComponent {
    temp: Entity,
    moisture: Entity,
}

impl Component for DisplayComponent {
    type Storage = TableStorage;
}

impl DisplayComponent {
    fn new(temp: Entity, moisture: Entity) -> Self {
        Self { temp, moisture }
    }
}

impl Descriptor for DisplayComponent {
    fn id(&self) -> u8 {
        105
    }

    fn name(&self) -> String {
        "Display".to_string()
    }

    fn description(&self) -> String {
        "Display sensor".to_string()
    }
}

impl Module<Entity> for DisplayComponent {
    fn init(self, robot: &mut Robot) -> Entity {
        SensorBuilder::new("Display", robot)
            .with_type(&self)
            .with_system(display_data)
            .with_component(self.clone())
            .build()
    }
}

fn display_data(
    display_query: Query<&DisplayComponent>,
    features: Query<(&Features, &Metadata)>,
    reading: Query<(&Reading, &Metadata)>,
) {
    for display in display_query.iter() {
        let (temp_features, temp_meta) = features.get(display.temp).unwrap();
        let (moisture_features, moisture_meta) = features.get(display.moisture).unwrap();

        let (moisture_reading, _) = reading.get(moisture_features.0[0]).unwrap();
        let mut humidity_reading = 0.0;
        let mut temp_reading = 0.0;

        for feature in temp_features.0.iter() {
            let (read, meta) = reading.get(*feature).unwrap();

            if meta.id == OutputType::Temperature.id() {
                temp_reading = f64::from_bits(read.bits());
            } else {
                humidity_reading = f64::from_bits(read.bits());
            }
        }

        println!(
            "{:?} {:?} {:?} read {:?} moisture",
            moisture_meta.id,
            moisture_meta.name,
            moisture_meta.description,
            f64::from_bits(moisture_reading.bits())
        );
        println!(
            "{:?} {:?} {:?} read {:?} temperature and {:?} humidity",
            temp_meta.id, temp_meta.name, temp_meta.description, temp_reading, humidity_reading
        );
    }
}

// Moisture

struct MoistureComponent {
    sensors: Vec<(String, u8)>,
}

impl MoistureComponent {
    fn new() -> Self {
        Self { sensors: vec![] }
    }

    fn add(mut self, name: &str, port: u8) -> Self {
        self.sensors.push((name.to_string(), port));
        self
    }
}

struct InitializedMoistureSensors {
    sensors: Vec<(Entity, String, u8)>,
}

impl Module<InitializedMoistureSensors> for MoistureComponent {
    fn init(self, robot: &mut Robot) -> InitializedMoistureSensors {
        let mut initialized = vec![];

        for (s_name, port) in self.sensors.iter() {
            let sensor_type = MoistureSensor::new(*port);

            let s = SensorBuilder::new(&format!("Moisture - {}", s_name), robot)
                .with_type(&sensor_type)
                .with_output(OutputType::Moisture)
                .with_system(moisture_reading)
                .with_component(sensor_type)
                .build();

            initialized.push((s, s_name.clone(), *port));
        }

        InitializedMoistureSensors { sensors: initialized }
    }
}

fn moisture_reading(
    mut query: Query<(&mut MoistureSensor, &Features)>,
    mut reading: Query<&mut Reading>,
) {
    for (mut sensor, features) in query.iter_mut() {
        // Simulate some reading
        let mut read = reading.get_mut(features.0[0]).unwrap();
        read.set(sensor.read().to_bits());
    }
}

#[derive(Clone)]
struct MoistureSensor {
    // Assume the moisture sensor only needs the port to read
    #[allow(dead_code)]
    port: u8,

    // We use this as a counter
    last_read: f64,
}

impl Component for MoistureSensor {
    type Storage = TableStorage;
}

impl MoistureSensor {
    fn new(port: u8) -> Self {
        Self { port, last_read: 0.0 }
    }

    fn read(&mut self) -> f64 {
        self.last_read += 11.0;
        self.last_read
    }
}

impl Descriptor for MoistureSensor {
    fn id(&self) -> u8 {
        100
    }

    fn name(&self) -> String {
        "Moisture Sensor".to_string()
    }

    fn description(&self) -> String {
        "Sensor used to log the soil moisture".to_string()
    }
}

// Temperature

struct TemperatureComponent {
    sensors: Vec<(String, u8)>,
}

impl TemperatureComponent {
    fn new() -> Self {
        Self { sensors: vec![] }
    }

    fn add(mut self, name: &str, port: u8) -> Self {
        self.sensors.push((name.to_string(), port));
        self
    }
}

struct InitializedTemperatureSensors {
    sensors: Vec<(Entity, String, u8)>,
}

impl Module<InitializedTemperatureSensors> for TemperatureComponent {
    fn init(self, robot: &mut Robot) -> InitializedTemperatureSensors {
        let mut initialized = vec![];

        for (s_name, port) in self.sensors.iter() {
            let sensor_type = TemperatureSensor::new(*port);

            let s = SensorBuilder::new(&format!("Temperature - {}", s_name), robot)
                .with_type(&sensor_type)
                .with_output(OutputType::Temperature)
                .with_output(OutputType::Humidity)
                .with_component(sensor_type)
                .with_system(temperature_reading)
                .build();

            initialized.push((s, s_name.clone(), *port));
        }

        InitializedTemperatureSensors { sensors: initialized }
    }
}

fn temperature_reading(
    mut query: Query<(&mut TemperatureSensor, &Features)>,
    mut reading: Query<(&mut Reading, &Metadata)>,
) {
    for (mut sensor, features) in query.iter_mut() {
        let sensor_reading = sensor.read();
        for feature in features.0.iter() {
            let (mut read, meta) = reading.get_mut(*feature).unwrap();

            let mut r = sensor_reading;
            if OutputType::Temperature.id() == meta.id {
                r *= 2.0;
            }

            read.set(r.to_bits());
        }
    }
}

#[derive(Clone)]
struct TemperatureSensor {
    // Assume the moisture sensor only needs the port to read
    #[allow(dead_code)]
    port: u8,

    // We use this as a counter
    last_read: f64,
}

impl Component for TemperatureSensor {
    type Storage = TableStorage;
}

impl TemperatureSensor {
    fn new(port: u8) -> Self {
        Self { port, last_read: 0.0 }
    }

    fn read(&mut self) -> f64 {
        self.last_read += 2.0;
        self.last_read
    }
}

impl Descriptor for TemperatureSensor {
    fn id(&self) -> u8 {
        101
    }

    fn name(&self) -> String {
        "Temperature Sensor".to_string()
    }

    fn description(&self) -> String {
        "Sensor used to log the temperature and humidity".to_string()
    }
}

#[test]
fn demo_application() {
    let mut robot = Robot::new();

    let temperature_sensor = robot.add(TemperatureComponent::new().add("Temperature Sensor", 10));
    let moisture_sensor = robot.add(MoistureComponent::new().add("Moisture Sensor", 100));

    robot.add(DisplayComponent::new(
        temperature_sensor.sensors[0].0,
        moisture_sensor.sensors[0].0,
    ));

    for _ in 0..10 {
        pass(&mut robot);
    }
}

#[test]
fn demo_modules_hand_back_what_they_built() {
    let mut robot = Robot::new();
    let temperature = robot.add(
        TemperatureComponent::new().add("Temperature Sensor", 10).add("Spare", 11),
    );
    let moisture = robot.add(MoistureComponent::new().add("Moisture Sensor", 100));
    assert_eq!(temperature.sensors.len(), 2);
    assert_eq!(temperature.sensors[0].1, "Temperature Sensor");
    assert_eq!(temperature.sensors[0].2, 10);
    assert_eq!(temperature.sensors[1].1, "Spare");
    assert_eq!(temperature.sensors[1].2, 11);
    assert_eq!(moisture.sensors.len(), 1);
    assert_eq!(moisture.sensors[0].1, "Moisture Sensor");
    assert_eq!(moisture.sensors[0].2, 100);
    assert_ne!(temperature.sensors[0].0, temperature.sensors[1].0);
    assert_ne!(temperature.sensors[0].0, moisture.sensors[0].0);
    // Two sensors with two outputs each, one with one output.
    assert!(robot.has_room(u32::MAX - 8));
    assert!(!robot.has_room(u32::MAX - 7));
}
